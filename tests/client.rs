use lol_lookup::client::{
    account_v1_response, account_v1_url, league_v4_url, match_v5_match_response, match_v5_match_url,
    match_v5_matchlist_response, match_v5_matchlist_url, require_api_key, settle, summoner_v4_response,
    summoner_v4_url, user_agent, Transport,
};
use lol_lookup::error::RiotApiError;
use lol_lookup::json::Json;
use lol_lookup::region::{LargeRegion, Region};

fn text(s: &str) -> Json {
    Json::Str(s.to_string())
}

fn ok(body: Json) -> Transport {
    Transport::Answered { status: 200, body: Some(body) }
}

#[test]
fn urls_follow_templates() {
    assert_eq!(
        account_v1_url(LargeRegion::Europe, "Foo", "EUW", "KEY"),
        "https://Europe.api.riotgames.com/riot/account/v1/accounts/by-riot-id/Foo/EUW?api_key=KEY"
    );
    assert_eq!(
        summoner_v4_url(Region::Euw1, "abc", "KEY"),
        "https://Euw1.api.riotgames.com/lol/summoner/v4/summoners/by-puuid/abc?api_key=KEY"
    );
    assert_eq!(
        league_v4_url(Region::Kr, "abc", "KEY"),
        "https://Kr.api.riotgames.com/lol/league/v4/entries/by-puuid/abc?api_key=KEY"
    );
    assert_eq!(
        match_v5_matchlist_url(LargeRegion::Asia, "abc", "KEY"),
        "https://Asia.api.riotgames.com/lol/match/v5/matches/by-puuid/abc/ids?start=0&count=5&api_key=KEY"
    );
    assert_eq!(
        match_v5_match_url(LargeRegion::Sea, "OC1_1", "KEY"),
        "https://Sea.api.riotgames.com/lol/match/v5/matches/OC1_1?api_key=KEY"
    );
}

#[test]
fn user_agent_is_fixed() {
    assert_eq!(user_agent(), "rust-web-api-client");
}

#[test]
fn missing_key_is_a_configuration_error() {
    assert_eq!(require_api_key(None), Err(RiotApiError::EnviromentalVariableError));
    assert_eq!(require_api_key(Some("k".to_string())), Ok("k".to_string()));
}

#[test]
fn unreachable_upstream_is_an_upstream_error() {
    for _ in 0..3 {
        assert_eq!(account_v1_response(Transport::Unreachable).unwrap_err(), RiotApiError::RiotApiError);
        assert_eq!(summoner_v4_response(Transport::Unreachable).unwrap_err(), RiotApiError::RiotApiError);
        assert_eq!(match_v5_match_response(Transport::Unreachable).unwrap_err(), RiotApiError::RiotApiError);
    }
}

#[test]
fn non_success_status_is_an_upstream_error() {
    let t = Transport::Answered { status: 404, body: Some(Json::Object(vec![])) };
    assert!(matches!(settle(t), Err(RiotApiError::RiotApiError)));
    let t = Transport::Answered { status: 503, body: None };
    assert!(matches!(settle(t), Err(RiotApiError::RiotApiError)));
}

#[test]
fn body_that_is_not_json_is_a_schema_error() {
    let t = Transport::Answered { status: 200, body: None };
    assert_eq!(account_v1_response(t).unwrap_err(), RiotApiError::SchemaError);
}

#[test]
fn account_answer_decodes() {
    let body = Json::Object(vec![
        ("puuid".to_string(), text("abc")),
        ("gameName".to_string(), text("Foo")),
        ("tagLine".to_string(), text("EUW")),
    ]);
    let a = account_v1_response(ok(body)).unwrap();
    assert_eq!(a.puuid, "abc");
    assert_eq!(a.game_name, "Foo");
    assert_eq!(a.tag_line, "EUW");
}

#[test]
fn match_list_decodes_and_rejects_non_strings() {
    let body = Json::Array(vec![text("EUW1_1"), text("EUW1_2")]);
    assert_eq!(match_v5_matchlist_response(ok(body)).unwrap(), vec!["EUW1_1".to_string(), "EUW1_2".to_string()]);
    let body = Json::Array(vec![text("EUW1_1"), Json::Int(2)]);
    assert_eq!(match_v5_matchlist_response(ok(body)).unwrap_err(), RiotApiError::SchemaError);
    assert_eq!(match_v5_matchlist_response(ok(Json::Array(vec![]))).unwrap(), Vec::<String>::new());
}
