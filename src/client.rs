use vstd::prelude::*;

use crate::dto::{
    account_v1_matches, league_v4_list_matches, match_v5_match_matches, summoner_v4_matches,
    AccountV1, LeagueV4, MatchV5Match, SummonerV4,
};
use crate::error::RiotApiError;
use crate::json::{as_text_list, text_list, texts_view, Json};
use crate::region::{large_region_name, region_name, LargeRegion, Region};

verus! {

/// The `User-Agent` value that identifies this client to the upstream service.
pub fn user_agent() -> (r: &'static str)
    ensures
        r@ == "rust-web-api-client"@,
{
    "rust-web-api-client"
}

/// How one HTTP exchange with the upstream service ended.
#[derive(Debug)]
pub enum Transport {
    /// No answer: the connection failed or timed out.
    Unreachable,
    /// An answer with this status; its body, if it parsed as JSON.
    Answered { status: u16, body: Option<Json> },
}

/// The base of every request URL for a host (a platform or cluster name).
pub open spec fn base_url(host: Seq<char>) -> Seq<char> {
    "https://"@ + host + ".api.riotgames.com"@
}

pub open spec fn account_v1_url_of(
    large_region: LargeRegion,
    gamename: Seq<char>,
    tagline: Seq<char>,
    api_key: Seq<char>,
) -> Seq<char> {
    base_url(large_region_name(large_region)) + "/riot/account/v1/accounts/by-riot-id/"@
        + gamename + "/"@ + tagline + "?api_key="@ + api_key
}

pub open spec fn summoner_v4_url_of(region: Region, puuid: Seq<char>, api_key: Seq<char>) -> Seq<
    char,
> {
    base_url(region_name(region)) + "/lol/summoner/v4/summoners/by-puuid/"@ + puuid
        + "?api_key="@ + api_key
}

pub open spec fn league_v4_url_of(region: Region, puuid: Seq<char>, api_key: Seq<char>) -> Seq<
    char,
> {
    base_url(region_name(region)) + "/lol/league/v4/entries/by-puuid/"@ + puuid + "?api_key="@
        + api_key
}

pub open spec fn match_v5_matchlist_url_of(
    large_region: LargeRegion,
    puuid: Seq<char>,
    api_key: Seq<char>,
) -> Seq<char> {
    base_url(large_region_name(large_region)) + "/lol/match/v5/matches/by-puuid/"@ + puuid
        + "/ids?start=0&count=5&api_key="@ + api_key
}

pub open spec fn match_v5_match_url_of(
    large_region: LargeRegion,
    match_id: Seq<char>,
    api_key: Seq<char>,
) -> Seq<char> {
    base_url(large_region_name(large_region)) + "/lol/match/v5/matches/"@ + match_id
        + "?api_key="@ + api_key
}

fn base_url_for(host: String) -> (r: String)
    ensures
        r@ == base_url(host@),
{
    let mut s = String::from_str("https://");
    s.append(host.as_str());
    s.append(".api.riotgames.com");
    s
}

fn with_key(url: &mut String, api_key: &str)
    ensures
        final(url)@ == old(url)@ + "?api_key="@ + api_key@,
{
    url.append("?api_key=");
    url.append(api_key);
}

/// The account lookup URL for a Riot ID (game name and tag line).
pub fn account_v1_url(large_region: LargeRegion, gamename: &str, tagline: &str, api_key: &str) -> (r:
    String)
    ensures
        r@ == account_v1_url_of(large_region, gamename@, tagline@, api_key@),
{
    let mut s = base_url_for(large_region.to_string());
    s.append("/riot/account/v1/accounts/by-riot-id/");
    s.append(gamename);
    s.append("/");
    s.append(tagline);
    with_key(&mut s, api_key);
    s
}

/// The summoner profile URL for a player on a platform.
pub fn summoner_v4_url(region: Region, puuid: &str, api_key: &str) -> (r: String)
    ensures
        r@ == summoner_v4_url_of(region, puuid@, api_key@),
{
    let mut s = base_url_for(region.to_string());
    s.append("/lol/summoner/v4/summoners/by-puuid/");
    s.append(puuid);
    with_key(&mut s, api_key);
    s
}

/// The ranked standings URL for a player on a platform.
pub fn league_v4_url(region: Region, puuid: &str, api_key: &str) -> (r: String)
    ensures
        r@ == league_v4_url_of(region, puuid@, api_key@),
{
    let mut s = base_url_for(region.to_string());
    s.append("/lol/league/v4/entries/by-puuid/");
    s.append(puuid);
    with_key(&mut s, api_key);
    s
}

/// The URL of a player's five most recent match ids.
pub fn match_v5_matchlist_url(large_region: LargeRegion, puuid: &str, api_key: &str) -> (r: String)
    ensures
        r@ == match_v5_matchlist_url_of(large_region, puuid@, api_key@),
{
    let mut s = base_url_for(large_region.to_string());
    s.append("/lol/match/v5/matches/by-puuid/");
    s.append(puuid);
    s.append("/ids?start=0&count=5&api_key=");
    s.append(api_key);
    s
}

/// The URL of one match's full record.
pub fn match_v5_match_url(large_region: LargeRegion, match_id: &str, api_key: &str) -> (r: String)
    ensures
        r@ == match_v5_match_url_of(large_region, match_id@, api_key@),
{
    let mut s = base_url_for(large_region.to_string());
    s.append("/lol/match/v5/matches/");
    s.append(match_id);
    with_key(&mut s, api_key);
    s
}

/// The access key, read from configuration at call time; its absence is a
/// configuration error, raised before any request is made.
pub fn require_api_key(configured: Option<String>) -> (r: Result<String, RiotApiError>)
    ensures
        match configured {
            Some(k) => r == Ok::<String, RiotApiError>(k),
            None => r == Err::<String, RiotApiError>(RiotApiError::EnviromentalVariableError),
        },
{
    match configured {
        Some(k) => Ok(k),
        None => Err(RiotApiError::EnviromentalVariableError),
    }
}

/// Whether the exchange ended in an answer with a success (2xx) status.
pub open spec fn succeeded(t: Transport) -> bool {
    match t {
        Transport::Answered { status, .. } => 200 <= status < 300,
        Transport::Unreachable => false,
    }
}

/// The parsed body of a successful answer.
pub open spec fn body_of(t: Transport) -> Option<Json> {
    match t {
        Transport::Answered { body, .. } => body,
        Transport::Unreachable => None,
    }
}

/// Turns the end of an exchange into the answer's JSON body or an error:
/// no answer or a non-success status is an upstream error; a body that is
/// not JSON is a schema error. Nothing is retried.
pub fn settle(t: Transport) -> (r: Result<Json, RiotApiError>)
    ensures
        !succeeded(t) ==> r == Err::<Json, RiotApiError>(RiotApiError::RiotApiError),
        succeeded(t) && body_of(t) is None ==> r == Err::<Json, RiotApiError>(
            RiotApiError::SchemaError,
        ),
        succeeded(t) && body_of(t) is Some ==> r == Ok::<Json, RiotApiError>(body_of(t)->0),
{
    match t {
        Transport::Unreachable => Err(RiotApiError::RiotApiError),
        Transport::Answered { status, body } => {
            if status < 200 || status >= 300 {
                Err(RiotApiError::RiotApiError)
            } else {
                match body {
                    Some(j) => Ok(j),
                    None => Err(RiotApiError::SchemaError),
                }
            }
        },
    }
}

/// The outcome of an account lookup exchange.
pub fn account_v1_response(t: Transport) -> (r: Result<AccountV1, RiotApiError>)
    ensures
        !succeeded(t) ==> r == Err::<AccountV1, RiotApiError>(RiotApiError::RiotApiError),
        succeeded(t) && body_of(t) is None ==> r == Err::<AccountV1, RiotApiError>(
            RiotApiError::SchemaError,
        ),
        succeeded(t) && body_of(t) is Some ==> {
            &&& r matches Ok(x) ==> account_v1_matches(body_of(t)->0, x)
            &&& r is Err ==> r == Err::<AccountV1, RiotApiError>(RiotApiError::SchemaError)
                && forall|y: AccountV1| !#[trigger] account_v1_matches(body_of(t)->0, y)
        },
{
    match settle(t) {
        Ok(j) => AccountV1::from_json(&j),
        Err(e) => Err(e),
    }
}

/// The outcome of a summoner profile exchange.
pub fn summoner_v4_response(t: Transport) -> (r: Result<SummonerV4, RiotApiError>)
    ensures
        !succeeded(t) ==> r == Err::<SummonerV4, RiotApiError>(RiotApiError::RiotApiError),
        succeeded(t) && body_of(t) is None ==> r == Err::<SummonerV4, RiotApiError>(
            RiotApiError::SchemaError,
        ),
        succeeded(t) && body_of(t) is Some ==> {
            &&& r matches Ok(x) ==> summoner_v4_matches(body_of(t)->0, x)
            &&& r is Err ==> r == Err::<SummonerV4, RiotApiError>(RiotApiError::SchemaError)
                && forall|y: SummonerV4| !#[trigger] summoner_v4_matches(body_of(t)->0, y)
        },
{
    match settle(t) {
        Ok(j) => SummonerV4::from_json(&j),
        Err(e) => Err(e),
    }
}

/// The outcome of a ranked standings exchange.
pub fn league_v4_response(t: Transport) -> (r: Result<Vec<LeagueV4>, RiotApiError>)
    ensures
        !succeeded(t) ==> r == Err::<Vec<LeagueV4>, RiotApiError>(RiotApiError::RiotApiError),
        succeeded(t) && body_of(t) is None ==> r == Err::<Vec<LeagueV4>, RiotApiError>(
            RiotApiError::SchemaError,
        ),
        succeeded(t) && body_of(t) is Some ==> {
            &&& r matches Ok(v) ==> league_v4_list_matches(body_of(t)->0, v@)
            &&& r is Err ==> r == Err::<Vec<LeagueV4>, RiotApiError>(RiotApiError::SchemaError)
                && forall|ys: Seq<LeagueV4>| !#[trigger] league_v4_list_matches(body_of(t)->0, ys)
        },
{
    match settle(t) {
        Ok(j) => LeagueV4::list_from_json(&j),
        Err(e) => Err(e),
    }
}

/// The outcome of a match id list exchange.
pub fn match_v5_matchlist_response(t: Transport) -> (r: Result<Vec<String>, RiotApiError>)
    ensures
        !succeeded(t) ==> r == Err::<Vec<String>, RiotApiError>(RiotApiError::RiotApiError),
        succeeded(t) && body_of(t) is None ==> r == Err::<Vec<String>, RiotApiError>(
            RiotApiError::SchemaError,
        ),
        succeeded(t) && body_of(t) is Some ==> {
            &&& r matches Ok(v) ==> as_text_list(body_of(t)) == Some(texts_view(v@))
            &&& r is Err ==> r == Err::<Vec<String>, RiotApiError>(RiotApiError::SchemaError)
                && as_text_list(body_of(t)) is None
        },
{
    match settle(t) {
        Ok(j) => match text_list(&j) {
            Some(v) => Ok(v),
            None => Err(RiotApiError::SchemaError),
        },
        Err(e) => Err(e),
    }
}

/// The outcome of a match record exchange.
pub fn match_v5_match_response(t: Transport) -> (r: Result<MatchV5Match, RiotApiError>)
    ensures
        !succeeded(t) ==> r == Err::<MatchV5Match, RiotApiError>(RiotApiError::RiotApiError),
        succeeded(t) && body_of(t) is None ==> r == Err::<MatchV5Match, RiotApiError>(
            RiotApiError::SchemaError,
        ),
        succeeded(t) && body_of(t) is Some ==> {
            &&& r matches Ok(x) ==> match_v5_match_matches(body_of(t)->0, x)
            &&& r is Err ==> r == Err::<MatchV5Match, RiotApiError>(RiotApiError::SchemaError)
                && forall|y: MatchV5Match| !#[trigger] match_v5_match_matches(body_of(t)->0, y)
        },
{
    match settle(t) {
        Ok(j) => MatchV5Match::from_json(&j),
        Err(e) => Err(e),
    }
}

} // verus!
