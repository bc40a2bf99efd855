use vstd::prelude::*;

use crate::error::RiotApiError;
use crate::json::{
    as_bool, as_i32, as_i64, as_opt_i64, as_opt_text, as_text, as_text_list, as_u32, as_u64,
    lookup, member, member_bool, member_i32, member_i64, member_opt_i64, member_opt_text,
    member_text, member_text_list, member_u32, member_u64, opt_view, texts_view, Json,
};

verus! {

/// A player account: its stable id and its Riot ID.
#[derive(Debug, PartialEq)]
pub struct AccountV1 {
    pub puuid: String,
    pub game_name: String,
    pub tag_line: String,
}

/// `x` is what the JSON object `j` holds, read member by member under the
/// lower-camel-case wire names; members not named here are ignored.
pub open spec fn account_v1_matches(j: Json, x: AccountV1) -> bool {
    match j {
        Json::Object(f) => {
            &&& as_text(lookup(f@, "puuid"@)) == Some(x.puuid@)
            &&& as_text(lookup(f@, "gameName"@)) == Some(x.game_name@)
            &&& as_text(lookup(f@, "tagLine"@)) == Some(x.tag_line@)
        },
        _ => false,
    }
}

/// Every member of a `AccountV1` record except the optional ones is required: an
/// object that lacks one matches no record, so decoding it fails with a
/// schema error.
pub proof fn lemma_account_v1_needs_member(j: Json, key: Seq<char>)
    requires
        j is Object,
        lookup(j->Object_0@, key) is None,
        key == "puuid"@
            || key == "gameName"@
            || key == "tagLine"@,
    ensures
        forall|x: AccountV1| !#[trigger] account_v1_matches(j, x),
{
}

impl AccountV1 {
    /// Reads the record from a JSON object. Fails with a schema error exactly
    /// when no record matches: a required member is missing or of the wrong
    /// kind, or an integer is out of range.
    pub fn from_json(j: &Json) -> (r: Result<AccountV1, RiotApiError>)
        ensures
            r matches Ok(x) ==> account_v1_matches(*j, x),
            r is Err ==> r == Err::<AccountV1, RiotApiError>(RiotApiError::SchemaError)
                && forall|y: AccountV1| !#[trigger] account_v1_matches(*j, y),
    {
        match j {
            Json::Object(f) => {
                let puuid = match member_text(f, "puuid") {
                    Some(v) => v,
                    None => {
                        return Err(RiotApiError::SchemaError);
                    },
                };
                let game_name = match member_text(f, "gameName") {
                    Some(v) => v,
                    None => {
                        return Err(RiotApiError::SchemaError);
                    },
                };
                let tag_line = match member_text(f, "tagLine") {
                    Some(v) => v,
                    None => {
                        return Err(RiotApiError::SchemaError);
                    },
                };
                Ok(AccountV1 { puuid, game_name, tag_line })
            },
            _ => Err(RiotApiError::SchemaError),
        }
    }
}

/// A ranked-queue standing of one player.
#[derive(Debug, PartialEq)]
pub struct LeagueV4 {
    pub league_id: String,
    pub queue_type: String,
    pub tier: String,
    pub rank: String,
    pub summoner_id: String,
    pub puuid: String,
    pub league_points: i32,
    pub wins: i32,
    pub losses: i32,
    pub veteran: bool,
    pub inactive: bool,
    pub fresh_blood: bool,
    pub hot_streak: bool,
}

/// `x` is what the JSON object `j` holds, read member by member under the
/// lower-camel-case wire names; members not named here are ignored.
pub open spec fn league_v4_matches(j: Json, x: LeagueV4) -> bool {
    match j {
        Json::Object(f) => {
            &&& as_text(lookup(f@, "leagueId"@)) == Some(x.league_id@)
            &&& as_text(lookup(f@, "queueType"@)) == Some(x.queue_type@)
            &&& as_text(lookup(f@, "tier"@)) == Some(x.tier@)
            &&& as_text(lookup(f@, "rank"@)) == Some(x.rank@)
            &&& as_text(lookup(f@, "summonerId"@)) == Some(x.summoner_id@)
            &&& as_text(lookup(f@, "puuid"@)) == Some(x.puuid@)
            &&& as_i32(lookup(f@, "leaguePoints"@)) == Some(x.league_points)
            &&& as_i32(lookup(f@, "wins"@)) == Some(x.wins)
            &&& as_i32(lookup(f@, "losses"@)) == Some(x.losses)
            &&& as_bool(lookup(f@, "veteran"@)) == Some(x.veteran)
            &&& as_bool(lookup(f@, "inactive"@)) == Some(x.inactive)
            &&& as_bool(lookup(f@, "freshBlood"@)) == Some(x.fresh_blood)
            &&& as_bool(lookup(f@, "hotStreak"@)) == Some(x.hot_streak)
        },
        _ => false,
    }
}

/// `xs` is, element by element, what the JSON array `j` holds.
pub open spec fn league_v4_list_matches(j: Json, xs: Seq<LeagueV4>) -> bool {
    match j {
        Json::Array(a) => a@.len() == xs.len() && forall|i: int|
            0 <= i < xs.len() ==> #[trigger] league_v4_matches(a@[i], xs[i]),
        _ => false,
    }
}

/// Every member of a `LeagueV4` record except the optional ones is required: an
/// object that lacks one matches no record, so decoding it fails with a
/// schema error.
pub proof fn lemma_league_v4_needs_member(j: Json, key: Seq<char>)
    requires
        j is Object,
        lookup(j->Object_0@, key) is None,
        key == "leagueId"@
            || key == "queueType"@
            || key == "tier"@
            || key == "rank"@
            || key == "summonerId"@
            || key == "puuid"@
            || key == "leaguePoints"@
            || key == "wins"@
            || key == "losses"@
            || key == "veteran"@
            || key == "inactive"@
            || key == "freshBlood"@
            || key == "hotStreak"@,
    ensures
        forall|x: LeagueV4| !#[trigger] league_v4_matches(j, x),
{
}

impl LeagueV4 {
    /// Reads the record from a JSON object. Fails with a schema error exactly
    /// when no record matches: a required member is missing or of the wrong
    /// kind, or an integer is out of range.
    pub fn from_json(j: &Json) -> (r: Result<LeagueV4, RiotApiError>)
        ensures
            r matches Ok(x) ==> league_v4_matches(*j, x),
            r is Err ==> r == Err::<LeagueV4, RiotApiError>(RiotApiError::SchemaError)
                && forall|y: LeagueV4| !#[trigger] league_v4_matches(*j, y),
    {
        match j {
            Json::Object(f) => {
                let league_id = match member_text(f, "leagueId") {
                    Some(v) => v,
                    None => {
                        return Err(RiotApiError::SchemaError);
                    },
                };
                let queue_type = match member_text(f, "queueType") {
                    Some(v) => v,
                    None => {
                        return Err(RiotApiError::SchemaError);
                    },
                };
                let tier = match member_text(f, "tier") {
                    Some(v) => v,
                    None => {
                        return Err(RiotApiError::SchemaError);
                    },
                };
                let rank = match member_text(f, "rank") {
                    Some(v) => v,
                    None => {
                        return Err(RiotApiError::SchemaError);
                    },
                };
                let summoner_id = match member_text(f, "summonerId") {
                    Some(v) => v,
                    None => {
                        return Err(RiotApiError::SchemaError);
                    },
                };
                let puuid = match member_text(f, "puuid") {
                    Some(v) => v,
                    None => {
                        return Err(RiotApiError::SchemaError);
                    },
                };
                let league_points = match member_i32(f, "leaguePoints") {
                    Some(v) => v,
                    None => {
                        return Err(RiotApiError::SchemaError);
                    },
                };
                let wins = match member_i32(f, "wins") {
                    Some(v) => v,
                    None => {
                        return Err(RiotApiError::SchemaError);
                    },
                };
                let losses = match member_i32(f, "losses") {
                    Some(v) => v,
                    None => {
                        return Err(RiotApiError::SchemaError);
                    },
                };
                let veteran = match member_bool(f, "veteran") {
                    Some(v) => v,
                    None => {
                        return Err(RiotApiError::SchemaError);
                    },
                };
                let inactive = match member_bool(f, "inactive") {
                    Some(v) => v,
                    None => {
                        return Err(RiotApiError::SchemaError);
                    },
                };
                let fresh_blood = match member_bool(f, "freshBlood") {
                    Some(v) => v,
                    None => {
                        return Err(RiotApiError::SchemaError);
                    },
                };
                let hot_streak = match member_bool(f, "hotStreak") {
                    Some(v) => v,
                    None => {
                        return Err(RiotApiError::SchemaError);
                    },
                };
                Ok(LeagueV4 {
                    league_id,
                    queue_type,
                    tier,
                    rank,
                    summoner_id,
                    puuid,
                    league_points,
                    wins,
                    losses,
                    veteran,
                    inactive,
                    fresh_blood,
                    hot_streak,
                })
            },
            _ => Err(RiotApiError::SchemaError),
        }
    }

    /// Reads an array of records. Fails with a schema error exactly when
    /// some element does not read as a record.
    pub fn list_from_json(j: &Json) -> (r: Result<Vec<LeagueV4>, RiotApiError>)
        ensures
            r matches Ok(v) ==> league_v4_list_matches(*j, v@),
            r is Err ==> r == Err::<Vec<LeagueV4>, RiotApiError>(RiotApiError::SchemaError)
                && forall|ys: Seq<LeagueV4>| !#[trigger] league_v4_list_matches(*j, ys),
    {
        match j {
            Json::Array(a) => {
                let mut out: Vec<LeagueV4> = Vec::new();
                let mut i: usize = 0;
                while i < a.len()
                    invariant
                        *j == Json::Array(*a),
                        0 <= i <= a@.len(),
                        out@.len() == i,
                        forall|k: int| 0 <= k < i ==> #[trigger] league_v4_matches(a@[k], out@[k]),
                    decreases a@.len() - i,
                {
                    match LeagueV4::from_json(&a[i]) {
                        Ok(x) => {
                            out.push(x);
                        },
                        Err(e) => {
                            proof {
                                assert forall|ys: Seq<LeagueV4>| !#[trigger] league_v4_list_matches(*j, ys) by {
                                    if ys.len() == a@.len() {
                                        assert(!league_v4_matches(a@[i as int], ys[i as int]));
                                    }
                                }
                            }
                            return Err(e);
                        },
                    }
                    i = i + 1;
                }
                Ok(out)
            },
            _ => Err(RiotApiError::SchemaError),
        }
    }
}

/// The full record of one match.
#[derive(Debug, PartialEq)]
pub struct MatchV5Match {
    pub metadata: MetadataDto,
    pub info: InfoDto,
}

/// `x` is what the JSON object `j` holds, read member by member under the
/// lower-camel-case wire names; members not named here are ignored.
pub open spec fn match_v5_match_matches(j: Json, x: MatchV5Match) -> bool {
    match j {
        Json::Object(f) => {
            &&& match lookup(f@, "metadata"@) {
                Some(v) => metadata_dto_matches(v, x.metadata),
                None => false,
            }
            &&& match lookup(f@, "info"@) {
                Some(v) => info_dto_matches(v, x.info),
                None => false,
            }
        },
        _ => false,
    }
}

/// Every member of a `MatchV5Match` record except the optional ones is required: an
/// object that lacks one matches no record, so decoding it fails with a
/// schema error.
pub proof fn lemma_match_v5_match_needs_member(j: Json, key: Seq<char>)
    requires
        j is Object,
        lookup(j->Object_0@, key) is None,
        key == "metadata"@
            || key == "info"@,
    ensures
        forall|x: MatchV5Match| !#[trigger] match_v5_match_matches(j, x),
{
}

impl MatchV5Match {
    /// Reads the record from a JSON object. Fails with a schema error exactly
    /// when no record matches: a required member is missing or of the wrong
    /// kind, or an integer is out of range.
    pub fn from_json(j: &Json) -> (r: Result<MatchV5Match, RiotApiError>)
        ensures
            r matches Ok(x) ==> match_v5_match_matches(*j, x),
            r is Err ==> r == Err::<MatchV5Match, RiotApiError>(RiotApiError::SchemaError)
                && forall|y: MatchV5Match| !#[trigger] match_v5_match_matches(*j, y),
    {
        match j {
            Json::Object(f) => {
                let metadata = match member(f, "metadata") {
                    Some(v) => match MetadataDto::from_json(v) {
                        Ok(d) => d,
                        Err(e) => {
                            return Err(e);
                        },
                    },
                    None => {
                        return Err(RiotApiError::SchemaError);
                    },
                };
                let info = match member(f, "info") {
                    Some(v) => match InfoDto::from_json(v) {
                        Ok(d) => d,
                        Err(e) => {
                            return Err(e);
                        },
                    },
                    None => {
                        return Err(RiotApiError::SchemaError);
                    },
                };
                Ok(MatchV5Match { metadata, info })
            },
            _ => Err(RiotApiError::SchemaError),
        }
    }
}

/// Identifying data of a match.
#[derive(Debug, PartialEq)]
pub struct MetadataDto {
    pub data_version: String,
    pub match_id: String,
    pub participants: Vec<String>,
}

/// `x` is what the JSON object `j` holds, read member by member under the
/// lower-camel-case wire names; members not named here are ignored.
pub open spec fn metadata_dto_matches(j: Json, x: MetadataDto) -> bool {
    match j {
        Json::Object(f) => {
            &&& as_text(lookup(f@, "dataVersion"@)) == Some(x.data_version@)
            &&& as_text(lookup(f@, "matchId"@)) == Some(x.match_id@)
            &&& as_text_list(lookup(f@, "participants"@)) == Some(texts_view(x.participants@))
        },
        _ => false,
    }
}

/// Every member of a `MetadataDto` record except the optional ones is required: an
/// object that lacks one matches no record, so decoding it fails with a
/// schema error.
pub proof fn lemma_metadata_dto_needs_member(j: Json, key: Seq<char>)
    requires
        j is Object,
        lookup(j->Object_0@, key) is None,
        key == "dataVersion"@
            || key == "matchId"@
            || key == "participants"@,
    ensures
        forall|x: MetadataDto| !#[trigger] metadata_dto_matches(j, x),
{
}

impl MetadataDto {
    /// Reads the record from a JSON object. Fails with a schema error exactly
    /// when no record matches: a required member is missing or of the wrong
    /// kind, or an integer is out of range.
    pub fn from_json(j: &Json) -> (r: Result<MetadataDto, RiotApiError>)
        ensures
            r matches Ok(x) ==> metadata_dto_matches(*j, x),
            r is Err ==> r == Err::<MetadataDto, RiotApiError>(RiotApiError::SchemaError)
                && forall|y: MetadataDto| !#[trigger] metadata_dto_matches(*j, y),
    {
        match j {
            Json::Object(f) => {
                let data_version = match member_text(f, "dataVersion") {
                    Some(v) => v,
                    None => {
                        return Err(RiotApiError::SchemaError);
                    },
                };
                let match_id = match member_text(f, "matchId") {
                    Some(v) => v,
                    None => {
                        return Err(RiotApiError::SchemaError);
                    },
                };
                let participants = match member_text_list(f, "participants") {
                    Some(v) => v,
                    None => {
                        return Err(RiotApiError::SchemaError);
                    },
                };
                Ok(MetadataDto { data_version, match_id, participants })
            },
            _ => Err(RiotApiError::SchemaError),
        }
    }
}

/// The course and outcome of a match.
#[derive(Debug, PartialEq)]
pub struct InfoDto {
    pub end_of_game_result: String,
    pub game_creation: i64,
    pub game_duration: i64,
    pub game_end_timestamp: Option<i64>,
    pub game_id: i64,
    pub game_mode: String,
    pub game_name: String,
    pub game_start_timestamp: i64,
    pub game_type: String,
    pub game_version: String,
    pub map_id: i32,
    pub participants: Vec<ParticipantDto>,
    pub platform_id: String,
    pub queue_id: i32,
    pub teams: Vec<TeamDto>,
    pub tournament_code: Option<String>,
}

/// `x` is what the JSON object `j` holds, read member by member under the
/// lower-camel-case wire names; members not named here are ignored.
pub open spec fn info_dto_matches(j: Json, x: InfoDto) -> bool {
    match j {
        Json::Object(f) => {
            &&& as_text(lookup(f@, "endOfGameResult"@)) == Some(x.end_of_game_result@)
            &&& as_i64(lookup(f@, "gameCreation"@)) == Some(x.game_creation)
            &&& as_i64(lookup(f@, "gameDuration"@)) == Some(x.game_duration)
            &&& as_opt_i64(lookup(f@, "gameEndTimestamp"@)) == Some(x.game_end_timestamp)
            &&& as_i64(lookup(f@, "gameId"@)) == Some(x.game_id)
            &&& as_text(lookup(f@, "gameMode"@)) == Some(x.game_mode@)
            &&& as_text(lookup(f@, "gameName"@)) == Some(x.game_name@)
            &&& as_i64(lookup(f@, "gameStartTimestamp"@)) == Some(x.game_start_timestamp)
            &&& as_text(lookup(f@, "gameType"@)) == Some(x.game_type@)
            &&& as_text(lookup(f@, "gameVersion"@)) == Some(x.game_version@)
            &&& as_i32(lookup(f@, "mapId"@)) == Some(x.map_id)
            &&& match lookup(f@, "participants"@) {
                Some(v) => participant_dto_list_matches(v, x.participants@),
                None => false,
            }
            &&& as_text(lookup(f@, "platformId"@)) == Some(x.platform_id@)
            &&& as_i32(lookup(f@, "queueId"@)) == Some(x.queue_id)
            &&& match lookup(f@, "teams"@) {
                Some(v) => team_dto_list_matches(v, x.teams@),
                None => false,
            }
            &&& as_opt_text(lookup(f@, "tournamentCode"@)) == Some(opt_view(x.tournament_code))
        },
        _ => false,
    }
}

/// Every member of a `InfoDto` record except the optional ones is required: an
/// object that lacks one matches no record, so decoding it fails with a
/// schema error.
pub proof fn lemma_info_dto_needs_member(j: Json, key: Seq<char>)
    requires
        j is Object,
        lookup(j->Object_0@, key) is None,
        key == "endOfGameResult"@
            || key == "gameCreation"@
            || key == "gameDuration"@
            || key == "gameId"@
            || key == "gameMode"@
            || key == "gameName"@
            || key == "gameStartTimestamp"@
            || key == "gameType"@
            || key == "gameVersion"@
            || key == "mapId"@
            || key == "participants"@
            || key == "platformId"@
            || key == "queueId"@
            || key == "teams"@,
    ensures
        forall|x: InfoDto| !#[trigger] info_dto_matches(j, x),
{
}

impl InfoDto {
    /// Reads the record from a JSON object. Fails with a schema error exactly
    /// when no record matches: a required member is missing or of the wrong
    /// kind, or an integer is out of range.
    pub fn from_json(j: &Json) -> (r: Result<InfoDto, RiotApiError>)
        ensures
            r matches Ok(x) ==> info_dto_matches(*j, x),
            r is Err ==> r == Err::<InfoDto, RiotApiError>(RiotApiError::SchemaError)
                && forall|y: InfoDto| !#[trigger] info_dto_matches(*j, y),
    {
        match j {
            Json::Object(f) => {
                let end_of_game_result = match member_text(f, "endOfGameResult") {
                    Some(v) => v,
                    None => {
                        return Err(RiotApiError::SchemaError);
                    },
                };
                let game_creation = match member_i64(f, "gameCreation") {
                    Some(v) => v,
                    None => {
                        return Err(RiotApiError::SchemaError);
                    },
                };
                let game_duration = match member_i64(f, "gameDuration") {
                    Some(v) => v,
                    None => {
                        return Err(RiotApiError::SchemaError);
                    },
                };
                let game_end_timestamp = match member_opt_i64(f, "gameEndTimestamp") {
                    Some(v) => v,
                    None => {
                        return Err(RiotApiError::SchemaError);
                    },
                };
                let game_id = match member_i64(f, "gameId") {
                    Some(v) => v,
                    None => {
                        return Err(RiotApiError::SchemaError);
                    },
                };
                let game_mode = match member_text(f, "gameMode") {
                    Some(v) => v,
                    None => {
                        return Err(RiotApiError::SchemaError);
                    },
                };
                let game_name = match member_text(f, "gameName") {
                    Some(v) => v,
                    None => {
                        return Err(RiotApiError::SchemaError);
                    },
                };
                let game_start_timestamp = match member_i64(f, "gameStartTimestamp") {
                    Some(v) => v,
                    None => {
                        return Err(RiotApiError::SchemaError);
                    },
                };
                let game_type = match member_text(f, "gameType") {
                    Some(v) => v,
                    None => {
                        return Err(RiotApiError::SchemaError);
                    },
                };
                let game_version = match member_text(f, "gameVersion") {
                    Some(v) => v,
                    None => {
                        return Err(RiotApiError::SchemaError);
                    },
                };
                let map_id = match member_i32(f, "mapId") {
                    Some(v) => v,
                    None => {
                        return Err(RiotApiError::SchemaError);
                    },
                };
                let participants = match member(f, "participants") {
                    Some(v) => match ParticipantDto::list_from_json(v) {
                        Ok(d) => d,
                        Err(e) => {
                            return Err(e);
                        },
                    },
                    None => {
                        return Err(RiotApiError::SchemaError);
                    },
                };
                let platform_id = match member_text(f, "platformId") {
                    Some(v) => v,
                    None => {
                        return Err(RiotApiError::SchemaError);
                    },
                };
                let queue_id = match member_i32(f, "queueId") {
                    Some(v) => v,
                    None => {
                        return Err(RiotApiError::SchemaError);
                    },
                };
                let teams = match member(f, "teams") {
                    Some(v) => match TeamDto::list_from_json(v) {
                        Ok(d) => d,
                        Err(e) => {
                            return Err(e);
                        },
                    },
                    None => {
                        return Err(RiotApiError::SchemaError);
                    },
                };
                let tournament_code = match member_opt_text(f, "tournamentCode") {
                    Some(v) => v,
                    None => {
                        return Err(RiotApiError::SchemaError);
                    },
                };
                Ok(InfoDto {
                    end_of_game_result,
                    game_creation,
                    game_duration,
                    game_end_timestamp,
                    game_id,
                    game_mode,
                    game_name,
                    game_start_timestamp,
                    game_type,
                    game_version,
                    map_id,
                    participants,
                    platform_id,
                    queue_id,
                    teams,
                    tournament_code,
                })
            },
            _ => Err(RiotApiError::SchemaError),
        }
    }
}

/// One player's statistics in a match.
#[derive(Debug, PartialEq)]
pub struct ParticipantDto {
    pub all_in_pings: i32,
    pub assist_me_pings: i32,
    pub assists: i32,
    pub baron_kills: i32,
    pub bounty_level: i32,
    pub champ_experience: i32,
    pub champ_level: i32,
    pub champion_id: i32,
    pub champion_name: String,
    pub command_pings: i32,
    pub champion_transform: i32,
    pub consumables_purchased: i32,
    pub damage_dealt_to_buildings: i32,
    pub damage_dealt_to_objectives: i32,
    pub damage_dealt_to_turrets: i32,
    pub damage_self_mitigated: i32,
    pub deaths: i32,
    pub detector_wards_placed: i32,
    pub double_kills: i32,
    pub dragon_kills: i32,
    pub eligible_for_progression: bool,
    pub enemy_missing_pings: i32,
    pub enemy_vision_pings: i32,
    pub first_blood_assist: bool,
    pub first_blood_kill: bool,
    pub first_tower_assist: bool,
    pub first_tower_kill: bool,
    pub game_ended_in_early_surrender: bool,
    pub game_ended_in_surrender: bool,
    pub hold_pings: i32,
    pub get_back_pings: i32,
    pub gold_earned: i32,
    pub gold_spent: i32,
    pub individual_position: String,
    pub inhibitor_kills: i32,
    pub inhibitor_takedowns: i32,
    pub inhibitors_lost: i32,
    pub item0: i32,
    pub item1: i32,
    pub item2: i32,
    pub item3: i32,
    pub item4: i32,
    pub item5: i32,
    pub item6: i32,
    pub items_purchased: i32,
    pub killing_sprees: i32,
    pub kills: i32,
    pub lane: String,
    pub largest_critical_strike: i32,
    pub largest_killing_spree: i32,
    pub largest_multi_kill: i32,
    pub longest_time_spent_living: i32,
    pub magic_damage_dealt: i32,
    pub magic_damage_dealt_to_champions: i32,
    pub magic_damage_taken: i32,
    pub neutral_minions_killed: i32,
    pub need_vision_pings: i32,
    pub nexus_kills: i32,
    pub nexus_takedowns: i32,
    pub nexus_lost: i32,
    pub objectives_stolen: i32,
    pub objectives_stolen_assists: i32,
    pub on_my_way_pings: i32,
    pub participant_id: i32,
    pub penta_kills: i32,
    pub perks: PerksDto,
    pub physical_damage_dealt: i32,
    pub physical_damage_dealt_to_champions: i32,
    pub physical_damage_taken: i32,
    pub placement: i32,
    pub player_augment1: i32,
    pub player_augment2: i32,
    pub player_augment3: i32,
    pub player_augment4: i32,
    pub player_subteam_id: i32,
    pub push_pings: i32,
    pub profile_icon: i32,
    pub puuid: String,
    pub quadra_kills: i32,
    pub riot_id_game_name: String,
    pub riot_id_tagline: String,
    pub role: String,
    pub sight_wards_bought_in_game: i32,
    pub spell1_casts: i32,
    pub spell2_casts: i32,
    pub spell3_casts: i32,
    pub spell4_casts: i32,
    pub subteam_placement: i32,
    pub summoner1_casts: i32,
    pub summoner1_id: i32,
    pub summoner2_casts: i32,
    pub summoner2_id: i32,
    pub summoner_id: String,
    pub summoner_level: i32,
    pub summoner_name: String,
    pub team_early_surrendered: bool,
    pub team_id: i32,
    pub team_position: String,
    pub time_played: i32,
    pub total_ally_jungle_minions_killed: i32,
    pub total_damage_dealt: i32,
    pub total_damage_dealt_to_champions: i32,
    pub total_damage_shielded_on_teammates: i32,
    pub total_damage_taken: i32,
    pub total_enemy_jungle_minions_killed: i32,
    pub total_heal: i32,
    pub total_heals_on_teammates: i32,
    pub total_minions_killed: i32,
    pub total_time_spent_dead: i32,
    pub total_units_healed: i32,
    pub triple_kills: i32,
    pub true_damage_dealt: i32,
    pub true_damage_dealt_to_champions: i32,
    pub true_damage_taken: i32,
    pub turret_kills: i32,
    pub turret_takedowns: i32,
    pub turrets_lost: i32,
    pub unreal_kills: i32,
    pub vision_score: i32,
    pub vision_cleared_pings: i32,
    pub vision_wards_bought_in_game: i32,
    pub wards_killed: i32,
    pub wards_placed: i32,
    pub win: bool,
}

/// `x` is what the JSON object `j` holds, read member by member under the
/// lower-camel-case wire names; members not named here are ignored.
pub open spec fn participant_dto_matches(j: Json, x: ParticipantDto) -> bool {
    match j {
        Json::Object(f) => {
            &&& as_i32(lookup(f@, "allInPings"@)) == Some(x.all_in_pings)
            &&& as_i32(lookup(f@, "assistMePings"@)) == Some(x.assist_me_pings)
            &&& as_i32(lookup(f@, "assists"@)) == Some(x.assists)
            &&& as_i32(lookup(f@, "baronKills"@)) == Some(x.baron_kills)
            &&& as_i32(lookup(f@, "bountyLevel"@)) == Some(x.bounty_level)
            &&& as_i32(lookup(f@, "champExperience"@)) == Some(x.champ_experience)
            &&& as_i32(lookup(f@, "champLevel"@)) == Some(x.champ_level)
            &&& as_i32(lookup(f@, "championId"@)) == Some(x.champion_id)
            &&& as_text(lookup(f@, "championName"@)) == Some(x.champion_name@)
            &&& as_i32(lookup(f@, "commandPings"@)) == Some(x.command_pings)
            &&& as_i32(lookup(f@, "championTransform"@)) == Some(x.champion_transform)
            &&& as_i32(lookup(f@, "consumablesPurchased"@)) == Some(x.consumables_purchased)
            &&& as_i32(lookup(f@, "damageDealtToBuildings"@)) == Some(x.damage_dealt_to_buildings)
            &&& as_i32(lookup(f@, "damageDealtToObjectives"@)) == Some(x.damage_dealt_to_objectives)
            &&& as_i32(lookup(f@, "damageDealtToTurrets"@)) == Some(x.damage_dealt_to_turrets)
            &&& as_i32(lookup(f@, "damageSelfMitigated"@)) == Some(x.damage_self_mitigated)
            &&& as_i32(lookup(f@, "deaths"@)) == Some(x.deaths)
            &&& as_i32(lookup(f@, "detectorWardsPlaced"@)) == Some(x.detector_wards_placed)
            &&& as_i32(lookup(f@, "doubleKills"@)) == Some(x.double_kills)
            &&& as_i32(lookup(f@, "dragonKills"@)) == Some(x.dragon_kills)
            &&& as_bool(lookup(f@, "eligibleForProgression"@)) == Some(x.eligible_for_progression)
            &&& as_i32(lookup(f@, "enemyMissingPings"@)) == Some(x.enemy_missing_pings)
            &&& as_i32(lookup(f@, "enemyVisionPings"@)) == Some(x.enemy_vision_pings)
            &&& as_bool(lookup(f@, "firstBloodAssist"@)) == Some(x.first_blood_assist)
            &&& as_bool(lookup(f@, "firstBloodKill"@)) == Some(x.first_blood_kill)
            &&& as_bool(lookup(f@, "firstTowerAssist"@)) == Some(x.first_tower_assist)
            &&& as_bool(lookup(f@, "firstTowerKill"@)) == Some(x.first_tower_kill)
            &&& as_bool(lookup(f@, "gameEndedInEarlySurrender"@)) == Some(x.game_ended_in_early_surrender)
            &&& as_bool(lookup(f@, "gameEndedInSurrender"@)) == Some(x.game_ended_in_surrender)
            &&& as_i32(lookup(f@, "holdPings"@)) == Some(x.hold_pings)
            &&& as_i32(lookup(f@, "getBackPings"@)) == Some(x.get_back_pings)
            &&& as_i32(lookup(f@, "goldEarned"@)) == Some(x.gold_earned)
            &&& as_i32(lookup(f@, "goldSpent"@)) == Some(x.gold_spent)
            &&& as_text(lookup(f@, "individualPosition"@)) == Some(x.individual_position@)
            &&& as_i32(lookup(f@, "inhibitorKills"@)) == Some(x.inhibitor_kills)
            &&& as_i32(lookup(f@, "inhibitorTakedowns"@)) == Some(x.inhibitor_takedowns)
            &&& as_i32(lookup(f@, "inhibitorsLost"@)) == Some(x.inhibitors_lost)
            &&& as_i32(lookup(f@, "item0"@)) == Some(x.item0)
            &&& as_i32(lookup(f@, "item1"@)) == Some(x.item1)
            &&& as_i32(lookup(f@, "item2"@)) == Some(x.item2)
            &&& as_i32(lookup(f@, "item3"@)) == Some(x.item3)
            &&& as_i32(lookup(f@, "item4"@)) == Some(x.item4)
            &&& as_i32(lookup(f@, "item5"@)) == Some(x.item5)
            &&& as_i32(lookup(f@, "item6"@)) == Some(x.item6)
            &&& as_i32(lookup(f@, "itemsPurchased"@)) == Some(x.items_purchased)
            &&& as_i32(lookup(f@, "killingSprees"@)) == Some(x.killing_sprees)
            &&& as_i32(lookup(f@, "kills"@)) == Some(x.kills)
            &&& as_text(lookup(f@, "lane"@)) == Some(x.lane@)
            &&& as_i32(lookup(f@, "largestCriticalStrike"@)) == Some(x.largest_critical_strike)
            &&& as_i32(lookup(f@, "largestKillingSpree"@)) == Some(x.largest_killing_spree)
            &&& as_i32(lookup(f@, "largestMultiKill"@)) == Some(x.largest_multi_kill)
            &&& as_i32(lookup(f@, "longestTimeSpentLiving"@)) == Some(x.longest_time_spent_living)
            &&& as_i32(lookup(f@, "magicDamageDealt"@)) == Some(x.magic_damage_dealt)
            &&& as_i32(lookup(f@, "magicDamageDealtToChampions"@)) == Some(x.magic_damage_dealt_to_champions)
            &&& as_i32(lookup(f@, "magicDamageTaken"@)) == Some(x.magic_damage_taken)
            &&& as_i32(lookup(f@, "neutralMinionsKilled"@)) == Some(x.neutral_minions_killed)
            &&& as_i32(lookup(f@, "needVisionPings"@)) == Some(x.need_vision_pings)
            &&& as_i32(lookup(f@, "nexusKills"@)) == Some(x.nexus_kills)
            &&& as_i32(lookup(f@, "nexusTakedowns"@)) == Some(x.nexus_takedowns)
            &&& as_i32(lookup(f@, "nexusLost"@)) == Some(x.nexus_lost)
            &&& as_i32(lookup(f@, "objectivesStolen"@)) == Some(x.objectives_stolen)
            &&& as_i32(lookup(f@, "objectivesStolenAssists"@)) == Some(x.objectives_stolen_assists)
            &&& as_i32(lookup(f@, "onMyWayPings"@)) == Some(x.on_my_way_pings)
            &&& as_i32(lookup(f@, "participantId"@)) == Some(x.participant_id)
            &&& as_i32(lookup(f@, "pentaKills"@)) == Some(x.penta_kills)
            &&& match lookup(f@, "perks"@) {
                Some(v) => perks_dto_matches(v, x.perks),
                None => false,
            }
            &&& as_i32(lookup(f@, "physicalDamageDealt"@)) == Some(x.physical_damage_dealt)
            &&& as_i32(lookup(f@, "physicalDamageDealtToChampions"@)) == Some(x.physical_damage_dealt_to_champions)
            &&& as_i32(lookup(f@, "physicalDamageTaken"@)) == Some(x.physical_damage_taken)
            &&& as_i32(lookup(f@, "placement"@)) == Some(x.placement)
            &&& as_i32(lookup(f@, "playerAugment1"@)) == Some(x.player_augment1)
            &&& as_i32(lookup(f@, "playerAugment2"@)) == Some(x.player_augment2)
            &&& as_i32(lookup(f@, "playerAugment3"@)) == Some(x.player_augment3)
            &&& as_i32(lookup(f@, "playerAugment4"@)) == Some(x.player_augment4)
            &&& as_i32(lookup(f@, "playerSubteamId"@)) == Some(x.player_subteam_id)
            &&& as_i32(lookup(f@, "pushPings"@)) == Some(x.push_pings)
            &&& as_i32(lookup(f@, "profileIcon"@)) == Some(x.profile_icon)
            &&& as_text(lookup(f@, "puuid"@)) == Some(x.puuid@)
            &&& as_i32(lookup(f@, "quadraKills"@)) == Some(x.quadra_kills)
            &&& as_text(lookup(f@, "riotIdGameName"@)) == Some(x.riot_id_game_name@)
            &&& as_text(lookup(f@, "riotIdTagline"@)) == Some(x.riot_id_tagline@)
            &&& as_text(lookup(f@, "role"@)) == Some(x.role@)
            &&& as_i32(lookup(f@, "sightWardsBoughtInGame"@)) == Some(x.sight_wards_bought_in_game)
            &&& as_i32(lookup(f@, "spell1Casts"@)) == Some(x.spell1_casts)
            &&& as_i32(lookup(f@, "spell2Casts"@)) == Some(x.spell2_casts)
            &&& as_i32(lookup(f@, "spell3Casts"@)) == Some(x.spell3_casts)
            &&& as_i32(lookup(f@, "spell4Casts"@)) == Some(x.spell4_casts)
            &&& as_i32(lookup(f@, "subteamPlacement"@)) == Some(x.subteam_placement)
            &&& as_i32(lookup(f@, "summoner1Casts"@)) == Some(x.summoner1_casts)
            &&& as_i32(lookup(f@, "summoner1Id"@)) == Some(x.summoner1_id)
            &&& as_i32(lookup(f@, "summoner2Casts"@)) == Some(x.summoner2_casts)
            &&& as_i32(lookup(f@, "summoner2Id"@)) == Some(x.summoner2_id)
            &&& as_text(lookup(f@, "summonerId"@)) == Some(x.summoner_id@)
            &&& as_i32(lookup(f@, "summonerLevel"@)) == Some(x.summoner_level)
            &&& as_text(lookup(f@, "summonerName"@)) == Some(x.summoner_name@)
            &&& as_bool(lookup(f@, "teamEarlySurrendered"@)) == Some(x.team_early_surrendered)
            &&& as_i32(lookup(f@, "teamId"@)) == Some(x.team_id)
            &&& as_text(lookup(f@, "teamPosition"@)) == Some(x.team_position@)
            &&& as_i32(lookup(f@, "timePlayed"@)) == Some(x.time_played)
            &&& as_i32(lookup(f@, "totalAllyJungleMinionsKilled"@)) == Some(x.total_ally_jungle_minions_killed)
            &&& as_i32(lookup(f@, "totalDamageDealt"@)) == Some(x.total_damage_dealt)
            &&& as_i32(lookup(f@, "totalDamageDealtToChampions"@)) == Some(x.total_damage_dealt_to_champions)
            &&& as_i32(lookup(f@, "totalDamageShieldedOnTeammates"@)) == Some(x.total_damage_shielded_on_teammates)
            &&& as_i32(lookup(f@, "totalDamageTaken"@)) == Some(x.total_damage_taken)
            &&& as_i32(lookup(f@, "totalEnemyJungleMinionsKilled"@)) == Some(x.total_enemy_jungle_minions_killed)
            &&& as_i32(lookup(f@, "totalHeal"@)) == Some(x.total_heal)
            &&& as_i32(lookup(f@, "totalHealsOnTeammates"@)) == Some(x.total_heals_on_teammates)
            &&& as_i32(lookup(f@, "totalMinionsKilled"@)) == Some(x.total_minions_killed)
            &&& as_i32(lookup(f@, "totalTimeSpentDead"@)) == Some(x.total_time_spent_dead)
            &&& as_i32(lookup(f@, "totalUnitsHealed"@)) == Some(x.total_units_healed)
            &&& as_i32(lookup(f@, "tripleKills"@)) == Some(x.triple_kills)
            &&& as_i32(lookup(f@, "trueDamageDealt"@)) == Some(x.true_damage_dealt)
            &&& as_i32(lookup(f@, "trueDamageDealtToChampions"@)) == Some(x.true_damage_dealt_to_champions)
            &&& as_i32(lookup(f@, "trueDamageTaken"@)) == Some(x.true_damage_taken)
            &&& as_i32(lookup(f@, "turretKills"@)) == Some(x.turret_kills)
            &&& as_i32(lookup(f@, "turretTakedowns"@)) == Some(x.turret_takedowns)
            &&& as_i32(lookup(f@, "turretsLost"@)) == Some(x.turrets_lost)
            &&& as_i32(lookup(f@, "unrealKills"@)) == Some(x.unreal_kills)
            &&& as_i32(lookup(f@, "visionScore"@)) == Some(x.vision_score)
            &&& as_i32(lookup(f@, "visionClearedPings"@)) == Some(x.vision_cleared_pings)
            &&& as_i32(lookup(f@, "visionWardsBoughtInGame"@)) == Some(x.vision_wards_bought_in_game)
            &&& as_i32(lookup(f@, "wardsKilled"@)) == Some(x.wards_killed)
            &&& as_i32(lookup(f@, "wardsPlaced"@)) == Some(x.wards_placed)
            &&& as_bool(lookup(f@, "win"@)) == Some(x.win)
        },
        _ => false,
    }
}

/// `xs` is, element by element, what the JSON array `j` holds.
pub open spec fn participant_dto_list_matches(j: Json, xs: Seq<ParticipantDto>) -> bool {
    match j {
        Json::Array(a) => a@.len() == xs.len() && forall|i: int|
            0 <= i < xs.len() ==> #[trigger] participant_dto_matches(a@[i], xs[i]),
        _ => false,
    }
}

/// Every member of a `ParticipantDto` record except the optional ones is required: an
/// object that lacks one matches no record, so decoding it fails with a
/// schema error.
pub proof fn lemma_participant_dto_needs_member(j: Json, key: Seq<char>)
    requires
        j is Object,
        lookup(j->Object_0@, key) is None,
        key == "allInPings"@
            || key == "assistMePings"@
            || key == "assists"@
            || key == "baronKills"@
            || key == "bountyLevel"@
            || key == "champExperience"@
            || key == "champLevel"@
            || key == "championId"@
            || key == "championName"@
            || key == "commandPings"@
            || key == "championTransform"@
            || key == "consumablesPurchased"@
            || key == "damageDealtToBuildings"@
            || key == "damageDealtToObjectives"@
            || key == "damageDealtToTurrets"@
            || key == "damageSelfMitigated"@
            || key == "deaths"@
            || key == "detectorWardsPlaced"@
            || key == "doubleKills"@
            || key == "dragonKills"@
            || key == "eligibleForProgression"@
            || key == "enemyMissingPings"@
            || key == "enemyVisionPings"@
            || key == "firstBloodAssist"@
            || key == "firstBloodKill"@
            || key == "firstTowerAssist"@
            || key == "firstTowerKill"@
            || key == "gameEndedInEarlySurrender"@
            || key == "gameEndedInSurrender"@
            || key == "holdPings"@
            || key == "getBackPings"@
            || key == "goldEarned"@
            || key == "goldSpent"@
            || key == "individualPosition"@
            || key == "inhibitorKills"@
            || key == "inhibitorTakedowns"@
            || key == "inhibitorsLost"@
            || key == "item0"@
            || key == "item1"@
            || key == "item2"@
            || key == "item3"@
            || key == "item4"@
            || key == "item5"@
            || key == "item6"@
            || key == "itemsPurchased"@
            || key == "killingSprees"@
            || key == "kills"@
            || key == "lane"@
            || key == "largestCriticalStrike"@
            || key == "largestKillingSpree"@
            || key == "largestMultiKill"@
            || key == "longestTimeSpentLiving"@
            || key == "magicDamageDealt"@
            || key == "magicDamageDealtToChampions"@
            || key == "magicDamageTaken"@
            || key == "neutralMinionsKilled"@
            || key == "needVisionPings"@
            || key == "nexusKills"@
            || key == "nexusTakedowns"@
            || key == "nexusLost"@
            || key == "objectivesStolen"@
            || key == "objectivesStolenAssists"@
            || key == "onMyWayPings"@
            || key == "participantId"@
            || key == "pentaKills"@
            || key == "perks"@
            || key == "physicalDamageDealt"@
            || key == "physicalDamageDealtToChampions"@
            || key == "physicalDamageTaken"@
            || key == "placement"@
            || key == "playerAugment1"@
            || key == "playerAugment2"@
            || key == "playerAugment3"@
            || key == "playerAugment4"@
            || key == "playerSubteamId"@
            || key == "pushPings"@
            || key == "profileIcon"@
            || key == "puuid"@
            || key == "quadraKills"@
            || key == "riotIdGameName"@
            || key == "riotIdTagline"@
            || key == "role"@
            || key == "sightWardsBoughtInGame"@
            || key == "spell1Casts"@
            || key == "spell2Casts"@
            || key == "spell3Casts"@
            || key == "spell4Casts"@
            || key == "subteamPlacement"@
            || key == "summoner1Casts"@
            || key == "summoner1Id"@
            || key == "summoner2Casts"@
            || key == "summoner2Id"@
            || key == "summonerId"@
            || key == "summonerLevel"@
            || key == "summonerName"@
            || key == "teamEarlySurrendered"@
            || key == "teamId"@
            || key == "teamPosition"@
            || key == "timePlayed"@
            || key == "totalAllyJungleMinionsKilled"@
            || key == "totalDamageDealt"@
            || key == "totalDamageDealtToChampions"@
            || key == "totalDamageShieldedOnTeammates"@
            || key == "totalDamageTaken"@
            || key == "totalEnemyJungleMinionsKilled"@
            || key == "totalHeal"@
            || key == "totalHealsOnTeammates"@
            || key == "totalMinionsKilled"@
            || key == "totalTimeSpentDead"@
            || key == "totalUnitsHealed"@
            || key == "tripleKills"@
            || key == "trueDamageDealt"@
            || key == "trueDamageDealtToChampions"@
            || key == "trueDamageTaken"@
            || key == "turretKills"@
            || key == "turretTakedowns"@
            || key == "turretsLost"@
            || key == "unrealKills"@
            || key == "visionScore"@
            || key == "visionClearedPings"@
            || key == "visionWardsBoughtInGame"@
            || key == "wardsKilled"@
            || key == "wardsPlaced"@
            || key == "win"@,
    ensures
        forall|x: ParticipantDto| !#[trigger] participant_dto_matches(j, x),
{
}

impl ParticipantDto {
    /// Reads the record from a JSON object. Fails with a schema error exactly
    /// when no record matches: a required member is missing or of the wrong
    /// kind, or an integer is out of range.
    pub fn from_json(j: &Json) -> (r: Result<ParticipantDto, RiotApiError>)
        ensures
            r matches Ok(x) ==> participant_dto_matches(*j, x),
            r is Err ==> r == Err::<ParticipantDto, RiotApiError>(RiotApiError::SchemaError)
                && forall|y: ParticipantDto| !#[trigger] participant_dto_matches(*j, y),
    {
        match j {
            Json::Object(f) => {
                let all_in_pings = match member_i32(f, "allInPings") {
                    Some(v) => v,
                    None => {
                        return Err(RiotApiError::SchemaError);
                    },
                };
                let assist_me_pings = match member_i32(f, "assistMePings") {
                    Some(v) => v,
                    None => {
                        return Err(RiotApiError::SchemaError);
                    },
                };
                let assists = match member_i32(f, "assists") {
                    Some(v) => v,
                    None => {
                        return Err(RiotApiError::SchemaError);
                    },
                };
                let baron_kills = match member_i32(f, "baronKills") {
                    Some(v) => v,
                    None => {
                        return Err(RiotApiError::SchemaError);
                    },
                };
                let bounty_level = match member_i32(f, "bountyLevel") {
                    Some(v) => v,
                    None => {
                        return Err(RiotApiError::SchemaError);
                    },
                };
                let champ_experience = match member_i32(f, "champExperience") {
                    Some(v) => v,
                    None => {
                        return Err(RiotApiError::SchemaError);
                    },
                };
                let champ_level = match member_i32(f, "champLevel") {
                    Some(v) => v,
                    None => {
                        return Err(RiotApiError::SchemaError);
                    },
                };
                let champion_id = match member_i32(f, "championId") {
                    Some(v) => v,
                    None => {
                        return Err(RiotApiError::SchemaError);
                    },
                };
                let champion_name = match member_text(f, "championName") {
                    Some(v) => v,
                    None => {
                        return Err(RiotApiError::SchemaError);
                    },
                };
                let command_pings = match member_i32(f, "commandPings") {
                    Some(v) => v,
                    None => {
                        return Err(RiotApiError::SchemaError);
                    },
                };
                let champion_transform = match member_i32(f, "championTransform") {
                    Some(v) => v,
                    None => {
                        return Err(RiotApiError::SchemaError);
                    },
                };
                let consumables_purchased = match member_i32(f, "consumablesPurchased") {
                    Some(v) => v,
                    None => {
                        return Err(RiotApiError::SchemaError);
                    },
                };
                let damage_dealt_to_buildings = match member_i32(f, "damageDealtToBuildings") {
                    Some(v) => v,
                    None => {
                        return Err(RiotApiError::SchemaError);
                    },
                };
                let damage_dealt_to_objectives = match member_i32(f, "damageDealtToObjectives") {
                    Some(v) => v,
                    None => {
                        return Err(RiotApiError::SchemaError);
                    },
                };
                let damage_dealt_to_turrets = match member_i32(f, "damageDealtToTurrets") {
                    Some(v) => v,
                    None => {
                        return Err(RiotApiError::SchemaError);
                    },
                };
                let damage_self_mitigated = match member_i32(f, "damageSelfMitigated") {
                    Some(v) => v,
                    None => {
                        return Err(RiotApiError::SchemaError);
                    },
                };
                let deaths = match member_i32(f, "deaths") {
                    Some(v) => v,
                    None => {
                        return Err(RiotApiError::SchemaError);
                    },
                };
                let detector_wards_placed = match member_i32(f, "detectorWardsPlaced") {
                    Some(v) => v,
                    None => {
                        return Err(RiotApiError::SchemaError);
                    },
                };
                let double_kills = match member_i32(f, "doubleKills") {
                    Some(v) => v,
                    None => {
                        return Err(RiotApiError::SchemaError);
                    },
                };
                let dragon_kills = match member_i32(f, "dragonKills") {
                    Some(v) => v,
                    None => {
                        return Err(RiotApiError::SchemaError);
                    },
                };
                let eligible_for_progression = match member_bool(f, "eligibleForProgression") {
                    Some(v) => v,
                    None => {
                        return Err(RiotApiError::SchemaError);
                    },
                };
                let enemy_missing_pings = match member_i32(f, "enemyMissingPings") {
                    Some(v) => v,
                    None => {
                        return Err(RiotApiError::SchemaError);
                    },
                };
                let enemy_vision_pings = match member_i32(f, "enemyVisionPings") {
                    Some(v) => v,
                    None => {
                        return Err(RiotApiError::SchemaError);
                    },
                };
                let first_blood_assist = match member_bool(f, "firstBloodAssist") {
                    Some(v) => v,
                    None => {
                        return Err(RiotApiError::SchemaError);
                    },
                };
                let first_blood_kill = match member_bool(f, "firstBloodKill") {
                    Some(v) => v,
                    None => {
                        return Err(RiotApiError::SchemaError);
                    },
                };
                let first_tower_assist = match member_bool(f, "firstTowerAssist") {
                    Some(v) => v,
                    None => {
                        return Err(RiotApiError::SchemaError);
                    },
                };
                let first_tower_kill = match member_bool(f, "firstTowerKill") {
                    Some(v) => v,
                    None => {
                        return Err(RiotApiError::SchemaError);
                    },
                };
                let game_ended_in_early_surrender = match member_bool(f, "gameEndedInEarlySurrender") {
                    Some(v) => v,
                    None => {
                        return Err(RiotApiError::SchemaError);
                    },
                };
                let game_ended_in_surrender = match member_bool(f, "gameEndedInSurrender") {
                    Some(v) => v,
                    None => {
                        return Err(RiotApiError::SchemaError);
                    },
                };
                let hold_pings = match member_i32(f, "holdPings") {
                    Some(v) => v,
                    None => {
                        return Err(RiotApiError::SchemaError);
                    },
                };
                let get_back_pings = match member_i32(f, "getBackPings") {
                    Some(v) => v,
                    None => {
                        return Err(RiotApiError::SchemaError);
                    },
                };
                let gold_earned = match member_i32(f, "goldEarned") {
                    Some(v) => v,
                    None => {
                        return Err(RiotApiError::SchemaError);
                    },
                };
                let gold_spent = match member_i32(f, "goldSpent") {
                    Some(v) => v,
                    None => {
                        return Err(RiotApiError::SchemaError);
                    },
                };
                let individual_position = match member_text(f, "individualPosition") {
                    Some(v) => v,
                    None => {
                        return Err(RiotApiError::SchemaError);
                    },
                };
                let inhibitor_kills = match member_i32(f, "inhibitorKills") {
                    Some(v) => v,
                    None => {
                        return Err(RiotApiError::SchemaError);
                    },
                };
                let inhibitor_takedowns = match member_i32(f, "inhibitorTakedowns") {
                    Some(v) => v,
                    None => {
                        return Err(RiotApiError::SchemaError);
                    },
                };
                let inhibitors_lost = match member_i32(f, "inhibitorsLost") {
                    Some(v) => v,
                    None => {
                        return Err(RiotApiError::SchemaError);
                    },
                };
                let item0 = match member_i32(f, "item0") {
                    Some(v) => v,
                    None => {
                        return Err(RiotApiError::SchemaError);
                    },
                };
                let item1 = match member_i32(f, "item1") {
                    Some(v) => v,
                    None => {
                        return Err(RiotApiError::SchemaError);
                    },
                };
                let item2 = match member_i32(f, "item2") {
                    Some(v) => v,
                    None => {
                        return Err(RiotApiError::SchemaError);
                    },
                };
                let item3 = match member_i32(f, "item3") {
                    Some(v) => v,
                    None => {
                        return Err(RiotApiError::SchemaError);
                    },
                };
                let item4 = match member_i32(f, "item4") {
                    Some(v) => v,
                    None => {
                        return Err(RiotApiError::SchemaError);
                    },
                };
                let item5 = match member_i32(f, "item5") {
                    Some(v) => v,
                    None => {
                        return Err(RiotApiError::SchemaError);
                    },
                };
                let item6 = match member_i32(f, "item6") {
                    Some(v) => v,
                    None => {
                        return Err(RiotApiError::SchemaError);
                    },
                };
                let items_purchased = match member_i32(f, "itemsPurchased") {
                    Some(v) => v,
                    None => {
                        return Err(RiotApiError::SchemaError);
                    },
                };
                let killing_sprees = match member_i32(f, "killingSprees") {
                    Some(v) => v,
                    None => {
                        return Err(RiotApiError::SchemaError);
                    },
                };
                let kills = match member_i32(f, "kills") {
                    Some(v) => v,
                    None => {
                        return Err(RiotApiError::SchemaError);
                    },
                };
                let lane = match member_text(f, "lane") {
                    Some(v) => v,
                    None => {
                        return Err(RiotApiError::SchemaError);
                    },
                };
                let largest_critical_strike = match member_i32(f, "largestCriticalStrike") {
                    Some(v) => v,
                    None => {
                        return Err(RiotApiError::SchemaError);
                    },
                };
                let largest_killing_spree = match member_i32(f, "largestKillingSpree") {
                    Some(v) => v,
                    None => {
                        return Err(RiotApiError::SchemaError);
                    },
                };
                let largest_multi_kill = match member_i32(f, "largestMultiKill") {
                    Some(v) => v,
                    None => {
                        return Err(RiotApiError::SchemaError);
                    },
                };
                let longest_time_spent_living = match member_i32(f, "longestTimeSpentLiving") {
                    Some(v) => v,
                    None => {
                        return Err(RiotApiError::SchemaError);
                    },
                };
                let magic_damage_dealt = match member_i32(f, "magicDamageDealt") {
                    Some(v) => v,
                    None => {
                        return Err(RiotApiError::SchemaError);
                    },
                };
                let magic_damage_dealt_to_champions = match member_i32(f, "magicDamageDealtToChampions") {
                    Some(v) => v,
                    None => {
                        return Err(RiotApiError::SchemaError);
                    },
                };
                let magic_damage_taken = match member_i32(f, "magicDamageTaken") {
                    Some(v) => v,
                    None => {
                        return Err(RiotApiError::SchemaError);
                    },
                };
                let neutral_minions_killed = match member_i32(f, "neutralMinionsKilled") {
                    Some(v) => v,
                    None => {
                        return Err(RiotApiError::SchemaError);
                    },
                };
                let need_vision_pings = match member_i32(f, "needVisionPings") {
                    Some(v) => v,
                    None => {
                        return Err(RiotApiError::SchemaError);
                    },
                };
                let nexus_kills = match member_i32(f, "nexusKills") {
                    Some(v) => v,
                    None => {
                        return Err(RiotApiError::SchemaError);
                    },
                };
                let nexus_takedowns = match member_i32(f, "nexusTakedowns") {
                    Some(v) => v,
                    None => {
                        return Err(RiotApiError::SchemaError);
                    },
                };
                let nexus_lost = match member_i32(f, "nexusLost") {
                    Some(v) => v,
                    None => {
                        return Err(RiotApiError::SchemaError);
                    },
                };
                let objectives_stolen = match member_i32(f, "objectivesStolen") {
                    Some(v) => v,
                    None => {
                        return Err(RiotApiError::SchemaError);
                    },
                };
                let objectives_stolen_assists = match member_i32(f, "objectivesStolenAssists") {
                    Some(v) => v,
                    None => {
                        return Err(RiotApiError::SchemaError);
                    },
                };
                let on_my_way_pings = match member_i32(f, "onMyWayPings") {
                    Some(v) => v,
                    None => {
                        return Err(RiotApiError::SchemaError);
                    },
                };
                let participant_id = match member_i32(f, "participantId") {
                    Some(v) => v,
                    None => {
                        return Err(RiotApiError::SchemaError);
                    },
                };
                let penta_kills = match member_i32(f, "pentaKills") {
                    Some(v) => v,
                    None => {
                        return Err(RiotApiError::SchemaError);
                    },
                };
                let perks = match member(f, "perks") {
                    Some(v) => match PerksDto::from_json(v) {
                        Ok(d) => d,
                        Err(e) => {
                            return Err(e);
                        },
                    },
                    None => {
                        return Err(RiotApiError::SchemaError);
                    },
                };
                let physical_damage_dealt = match member_i32(f, "physicalDamageDealt") {
                    Some(v) => v,
                    None => {
                        return Err(RiotApiError::SchemaError);
                    },
                };
                let physical_damage_dealt_to_champions = match member_i32(f, "physicalDamageDealtToChampions") {
                    Some(v) => v,
                    None => {
                        return Err(RiotApiError::SchemaError);
                    },
                };
                let physical_damage_taken = match member_i32(f, "physicalDamageTaken") {
                    Some(v) => v,
                    None => {
                        return Err(RiotApiError::SchemaError);
                    },
                };
                let placement = match member_i32(f, "placement") {
                    Some(v) => v,
                    None => {
                        return Err(RiotApiError::SchemaError);
                    },
                };
                let player_augment1 = match member_i32(f, "playerAugment1") {
                    Some(v) => v,
                    None => {
                        return Err(RiotApiError::SchemaError);
                    },
                };
                let player_augment2 = match member_i32(f, "playerAugment2") {
                    Some(v) => v,
                    None => {
                        return Err(RiotApiError::SchemaError);
                    },
                };
                let player_augment3 = match member_i32(f, "playerAugment3") {
                    Some(v) => v,
                    None => {
                        return Err(RiotApiError::SchemaError);
                    },
                };
                let player_augment4 = match member_i32(f, "playerAugment4") {
                    Some(v) => v,
                    None => {
                        return Err(RiotApiError::SchemaError);
                    },
                };
                let player_subteam_id = match member_i32(f, "playerSubteamId") {
                    Some(v) => v,
                    None => {
                        return Err(RiotApiError::SchemaError);
                    },
                };
                let push_pings = match member_i32(f, "pushPings") {
                    Some(v) => v,
                    None => {
                        return Err(RiotApiError::SchemaError);
                    },
                };
                let profile_icon = match member_i32(f, "profileIcon") {
                    Some(v) => v,
                    None => {
                        return Err(RiotApiError::SchemaError);
                    },
                };
                let puuid = match member_text(f, "puuid") {
                    Some(v) => v,
                    None => {
                        return Err(RiotApiError::SchemaError);
                    },
                };
                let quadra_kills = match member_i32(f, "quadraKills") {
                    Some(v) => v,
                    None => {
                        return Err(RiotApiError::SchemaError);
                    },
                };
                let riot_id_game_name = match member_text(f, "riotIdGameName") {
                    Some(v) => v,
                    None => {
                        return Err(RiotApiError::SchemaError);
                    },
                };
                let riot_id_tagline = match member_text(f, "riotIdTagline") {
                    Some(v) => v,
                    None => {
                        return Err(RiotApiError::SchemaError);
                    },
                };
                let role = match member_text(f, "role") {
                    Some(v) => v,
                    None => {
                        return Err(RiotApiError::SchemaError);
                    },
                };
                let sight_wards_bought_in_game = match member_i32(f, "sightWardsBoughtInGame") {
                    Some(v) => v,
                    None => {
                        return Err(RiotApiError::SchemaError);
                    },
                };
                let spell1_casts = match member_i32(f, "spell1Casts") {
                    Some(v) => v,
                    None => {
                        return Err(RiotApiError::SchemaError);
                    },
                };
                let spell2_casts = match member_i32(f, "spell2Casts") {
                    Some(v) => v,
                    None => {
                        return Err(RiotApiError::SchemaError);
                    },
                };
                let spell3_casts = match member_i32(f, "spell3Casts") {
                    Some(v) => v,
                    None => {
                        return Err(RiotApiError::SchemaError);
                    },
                };
                let spell4_casts = match member_i32(f, "spell4Casts") {
                    Some(v) => v,
                    None => {
                        return Err(RiotApiError::SchemaError);
                    },
                };
                let subteam_placement = match member_i32(f, "subteamPlacement") {
                    Some(v) => v,
                    None => {
                        return Err(RiotApiError::SchemaError);
                    },
                };
                let summoner1_casts = match member_i32(f, "summoner1Casts") {
                    Some(v) => v,
                    None => {
                        return Err(RiotApiError::SchemaError);
                    },
                };
                let summoner1_id = match member_i32(f, "summoner1Id") {
                    Some(v) => v,
                    None => {
                        return Err(RiotApiError::SchemaError);
                    },
                };
                let summoner2_casts = match member_i32(f, "summoner2Casts") {
                    Some(v) => v,
                    None => {
                        return Err(RiotApiError::SchemaError);
                    },
                };
                let summoner2_id = match member_i32(f, "summoner2Id") {
                    Some(v) => v,
                    None => {
                        return Err(RiotApiError::SchemaError);
                    },
                };
                let summoner_id = match member_text(f, "summonerId") {
                    Some(v) => v,
                    None => {
                        return Err(RiotApiError::SchemaError);
                    },
                };
                let summoner_level = match member_i32(f, "summonerLevel") {
                    Some(v) => v,
                    None => {
                        return Err(RiotApiError::SchemaError);
                    },
                };
                let summoner_name = match member_text(f, "summonerName") {
                    Some(v) => v,
                    None => {
                        return Err(RiotApiError::SchemaError);
                    },
                };
                let team_early_surrendered = match member_bool(f, "teamEarlySurrendered") {
                    Some(v) => v,
                    None => {
                        return Err(RiotApiError::SchemaError);
                    },
                };
                let team_id = match member_i32(f, "teamId") {
                    Some(v) => v,
                    None => {
                        return Err(RiotApiError::SchemaError);
                    },
                };
                let team_position = match member_text(f, "teamPosition") {
                    Some(v) => v,
                    None => {
                        return Err(RiotApiError::SchemaError);
                    },
                };
                let time_played = match member_i32(f, "timePlayed") {
                    Some(v) => v,
                    None => {
                        return Err(RiotApiError::SchemaError);
                    },
                };
                let total_ally_jungle_minions_killed = match member_i32(f, "totalAllyJungleMinionsKilled") {
                    Some(v) => v,
                    None => {
                        return Err(RiotApiError::SchemaError);
                    },
                };
                let total_damage_dealt = match member_i32(f, "totalDamageDealt") {
                    Some(v) => v,
                    None => {
                        return Err(RiotApiError::SchemaError);
                    },
                };
                let total_damage_dealt_to_champions = match member_i32(f, "totalDamageDealtToChampions") {
                    Some(v) => v,
                    None => {
                        return Err(RiotApiError::SchemaError);
                    },
                };
                let total_damage_shielded_on_teammates = match member_i32(f, "totalDamageShieldedOnTeammates") {
                    Some(v) => v,
                    None => {
                        return Err(RiotApiError::SchemaError);
                    },
                };
                let total_damage_taken = match member_i32(f, "totalDamageTaken") {
                    Some(v) => v,
                    None => {
                        return Err(RiotApiError::SchemaError);
                    },
                };
                let total_enemy_jungle_minions_killed = match member_i32(f, "totalEnemyJungleMinionsKilled") {
                    Some(v) => v,
                    None => {
                        return Err(RiotApiError::SchemaError);
                    },
                };
                let total_heal = match member_i32(f, "totalHeal") {
                    Some(v) => v,
                    None => {
                        return Err(RiotApiError::SchemaError);
                    },
                };
                let total_heals_on_teammates = match member_i32(f, "totalHealsOnTeammates") {
                    Some(v) => v,
                    None => {
                        return Err(RiotApiError::SchemaError);
                    },
                };
                let total_minions_killed = match member_i32(f, "totalMinionsKilled") {
                    Some(v) => v,
                    None => {
                        return Err(RiotApiError::SchemaError);
                    },
                };
                let total_time_spent_dead = match member_i32(f, "totalTimeSpentDead") {
                    Some(v) => v,
                    None => {
                        return Err(RiotApiError::SchemaError);
                    },
                };
                let total_units_healed = match member_i32(f, "totalUnitsHealed") {
                    Some(v) => v,
                    None => {
                        return Err(RiotApiError::SchemaError);
                    },
                };
                let triple_kills = match member_i32(f, "tripleKills") {
                    Some(v) => v,
                    None => {
                        return Err(RiotApiError::SchemaError);
                    },
                };
                let true_damage_dealt = match member_i32(f, "trueDamageDealt") {
                    Some(v) => v,
                    None => {
                        return Err(RiotApiError::SchemaError);
                    },
                };
                let true_damage_dealt_to_champions = match member_i32(f, "trueDamageDealtToChampions") {
                    Some(v) => v,
                    None => {
                        return Err(RiotApiError::SchemaError);
                    },
                };
                let true_damage_taken = match member_i32(f, "trueDamageTaken") {
                    Some(v) => v,
                    None => {
                        return Err(RiotApiError::SchemaError);
                    },
                };
                let turret_kills = match member_i32(f, "turretKills") {
                    Some(v) => v,
                    None => {
                        return Err(RiotApiError::SchemaError);
                    },
                };
                let turret_takedowns = match member_i32(f, "turretTakedowns") {
                    Some(v) => v,
                    None => {
                        return Err(RiotApiError::SchemaError);
                    },
                };
                let turrets_lost = match member_i32(f, "turretsLost") {
                    Some(v) => v,
                    None => {
                        return Err(RiotApiError::SchemaError);
                    },
                };
                let unreal_kills = match member_i32(f, "unrealKills") {
                    Some(v) => v,
                    None => {
                        return Err(RiotApiError::SchemaError);
                    },
                };
                let vision_score = match member_i32(f, "visionScore") {
                    Some(v) => v,
                    None => {
                        return Err(RiotApiError::SchemaError);
                    },
                };
                let vision_cleared_pings = match member_i32(f, "visionClearedPings") {
                    Some(v) => v,
                    None => {
                        return Err(RiotApiError::SchemaError);
                    },
                };
                let vision_wards_bought_in_game = match member_i32(f, "visionWardsBoughtInGame") {
                    Some(v) => v,
                    None => {
                        return Err(RiotApiError::SchemaError);
                    },
                };
                let wards_killed = match member_i32(f, "wardsKilled") {
                    Some(v) => v,
                    None => {
                        return Err(RiotApiError::SchemaError);
                    },
                };
                let wards_placed = match member_i32(f, "wardsPlaced") {
                    Some(v) => v,
                    None => {
                        return Err(RiotApiError::SchemaError);
                    },
                };
                let win = match member_bool(f, "win") {
                    Some(v) => v,
                    None => {
                        return Err(RiotApiError::SchemaError);
                    },
                };
                Ok(ParticipantDto {
                    all_in_pings,
                    assist_me_pings,
                    assists,
                    baron_kills,
                    bounty_level,
                    champ_experience,
                    champ_level,
                    champion_id,
                    champion_name,
                    command_pings,
                    champion_transform,
                    consumables_purchased,
                    damage_dealt_to_buildings,
                    damage_dealt_to_objectives,
                    damage_dealt_to_turrets,
                    damage_self_mitigated,
                    deaths,
                    detector_wards_placed,
                    double_kills,
                    dragon_kills,
                    eligible_for_progression,
                    enemy_missing_pings,
                    enemy_vision_pings,
                    first_blood_assist,
                    first_blood_kill,
                    first_tower_assist,
                    first_tower_kill,
                    game_ended_in_early_surrender,
                    game_ended_in_surrender,
                    hold_pings,
                    get_back_pings,
                    gold_earned,
                    gold_spent,
                    individual_position,
                    inhibitor_kills,
                    inhibitor_takedowns,
                    inhibitors_lost,
                    item0,
                    item1,
                    item2,
                    item3,
                    item4,
                    item5,
                    item6,
                    items_purchased,
                    killing_sprees,
                    kills,
                    lane,
                    largest_critical_strike,
                    largest_killing_spree,
                    largest_multi_kill,
                    longest_time_spent_living,
                    magic_damage_dealt,
                    magic_damage_dealt_to_champions,
                    magic_damage_taken,
                    neutral_minions_killed,
                    need_vision_pings,
                    nexus_kills,
                    nexus_takedowns,
                    nexus_lost,
                    objectives_stolen,
                    objectives_stolen_assists,
                    on_my_way_pings,
                    participant_id,
                    penta_kills,
                    perks,
                    physical_damage_dealt,
                    physical_damage_dealt_to_champions,
                    physical_damage_taken,
                    placement,
                    player_augment1,
                    player_augment2,
                    player_augment3,
                    player_augment4,
                    player_subteam_id,
                    push_pings,
                    profile_icon,
                    puuid,
                    quadra_kills,
                    riot_id_game_name,
                    riot_id_tagline,
                    role,
                    sight_wards_bought_in_game,
                    spell1_casts,
                    spell2_casts,
                    spell3_casts,
                    spell4_casts,
                    subteam_placement,
                    summoner1_casts,
                    summoner1_id,
                    summoner2_casts,
                    summoner2_id,
                    summoner_id,
                    summoner_level,
                    summoner_name,
                    team_early_surrendered,
                    team_id,
                    team_position,
                    time_played,
                    total_ally_jungle_minions_killed,
                    total_damage_dealt,
                    total_damage_dealt_to_champions,
                    total_damage_shielded_on_teammates,
                    total_damage_taken,
                    total_enemy_jungle_minions_killed,
                    total_heal,
                    total_heals_on_teammates,
                    total_minions_killed,
                    total_time_spent_dead,
                    total_units_healed,
                    triple_kills,
                    true_damage_dealt,
                    true_damage_dealt_to_champions,
                    true_damage_taken,
                    turret_kills,
                    turret_takedowns,
                    turrets_lost,
                    unreal_kills,
                    vision_score,
                    vision_cleared_pings,
                    vision_wards_bought_in_game,
                    wards_killed,
                    wards_placed,
                    win,
                })
            },
            _ => Err(RiotApiError::SchemaError),
        }
    }

    /// Reads an array of records. Fails with a schema error exactly when
    /// some element does not read as a record.
    pub fn list_from_json(j: &Json) -> (r: Result<Vec<ParticipantDto>, RiotApiError>)
        ensures
            r matches Ok(v) ==> participant_dto_list_matches(*j, v@),
            r is Err ==> r == Err::<Vec<ParticipantDto>, RiotApiError>(RiotApiError::SchemaError)
                && forall|ys: Seq<ParticipantDto>| !#[trigger] participant_dto_list_matches(*j, ys),
    {
        match j {
            Json::Array(a) => {
                let mut out: Vec<ParticipantDto> = Vec::new();
                let mut i: usize = 0;
                while i < a.len()
                    invariant
                        *j == Json::Array(*a),
                        0 <= i <= a@.len(),
                        out@.len() == i,
                        forall|k: int| 0 <= k < i ==> #[trigger] participant_dto_matches(a@[k], out@[k]),
                    decreases a@.len() - i,
                {
                    match ParticipantDto::from_json(&a[i]) {
                        Ok(x) => {
                            out.push(x);
                        },
                        Err(e) => {
                            proof {
                                assert forall|ys: Seq<ParticipantDto>| !#[trigger] participant_dto_list_matches(*j, ys) by {
                                    if ys.len() == a@.len() {
                                        assert(!participant_dto_matches(a@[i as int], ys[i as int]));
                                    }
                                }
                            }
                            return Err(e);
                        },
                    }
                    i = i + 1;
                }
                Ok(out)
            },
            _ => Err(RiotApiError::SchemaError),
        }
    }
}

/// The rune setup of a participant.
#[derive(Debug, PartialEq)]
pub struct PerksDto {
    pub stat_perks: PerkStatsDto,
    pub styles: Vec<PerkStyleDto>,
}

/// `x` is what the JSON object `j` holds, read member by member under the
/// lower-camel-case wire names; members not named here are ignored.
pub open spec fn perks_dto_matches(j: Json, x: PerksDto) -> bool {
    match j {
        Json::Object(f) => {
            &&& match lookup(f@, "statPerks"@) {
                Some(v) => perk_stats_dto_matches(v, x.stat_perks),
                None => false,
            }
            &&& match lookup(f@, "styles"@) {
                Some(v) => perk_style_dto_list_matches(v, x.styles@),
                None => false,
            }
        },
        _ => false,
    }
}

/// Every member of a `PerksDto` record except the optional ones is required: an
/// object that lacks one matches no record, so decoding it fails with a
/// schema error.
pub proof fn lemma_perks_dto_needs_member(j: Json, key: Seq<char>)
    requires
        j is Object,
        lookup(j->Object_0@, key) is None,
        key == "statPerks"@
            || key == "styles"@,
    ensures
        forall|x: PerksDto| !#[trigger] perks_dto_matches(j, x),
{
}

impl PerksDto {
    /// Reads the record from a JSON object. Fails with a schema error exactly
    /// when no record matches: a required member is missing or of the wrong
    /// kind, or an integer is out of range.
    pub fn from_json(j: &Json) -> (r: Result<PerksDto, RiotApiError>)
        ensures
            r matches Ok(x) ==> perks_dto_matches(*j, x),
            r is Err ==> r == Err::<PerksDto, RiotApiError>(RiotApiError::SchemaError)
                && forall|y: PerksDto| !#[trigger] perks_dto_matches(*j, y),
    {
        match j {
            Json::Object(f) => {
                let stat_perks = match member(f, "statPerks") {
                    Some(v) => match PerkStatsDto::from_json(v) {
                        Ok(d) => d,
                        Err(e) => {
                            return Err(e);
                        },
                    },
                    None => {
                        return Err(RiotApiError::SchemaError);
                    },
                };
                let styles = match member(f, "styles") {
                    Some(v) => match PerkStyleDto::list_from_json(v) {
                        Ok(d) => d,
                        Err(e) => {
                            return Err(e);
                        },
                    },
                    None => {
                        return Err(RiotApiError::SchemaError);
                    },
                };
                Ok(PerksDto { stat_perks, styles })
            },
            _ => Err(RiotApiError::SchemaError),
        }
    }
}

/// The stat shards of a rune setup.
#[derive(Debug, PartialEq)]
pub struct PerkStatsDto {
    pub defense: i32,
    pub flex: i32,
    pub offense: i32,
}

/// `x` is what the JSON object `j` holds, read member by member under the
/// lower-camel-case wire names; members not named here are ignored.
pub open spec fn perk_stats_dto_matches(j: Json, x: PerkStatsDto) -> bool {
    match j {
        Json::Object(f) => {
            &&& as_i32(lookup(f@, "defense"@)) == Some(x.defense)
            &&& as_i32(lookup(f@, "flex"@)) == Some(x.flex)
            &&& as_i32(lookup(f@, "offense"@)) == Some(x.offense)
        },
        _ => false,
    }
}

/// Every member of a `PerkStatsDto` record except the optional ones is required: an
/// object that lacks one matches no record, so decoding it fails with a
/// schema error.
pub proof fn lemma_perk_stats_dto_needs_member(j: Json, key: Seq<char>)
    requires
        j is Object,
        lookup(j->Object_0@, key) is None,
        key == "defense"@
            || key == "flex"@
            || key == "offense"@,
    ensures
        forall|x: PerkStatsDto| !#[trigger] perk_stats_dto_matches(j, x),
{
}

impl PerkStatsDto {
    /// Reads the record from a JSON object. Fails with a schema error exactly
    /// when no record matches: a required member is missing or of the wrong
    /// kind, or an integer is out of range.
    pub fn from_json(j: &Json) -> (r: Result<PerkStatsDto, RiotApiError>)
        ensures
            r matches Ok(x) ==> perk_stats_dto_matches(*j, x),
            r is Err ==> r == Err::<PerkStatsDto, RiotApiError>(RiotApiError::SchemaError)
                && forall|y: PerkStatsDto| !#[trigger] perk_stats_dto_matches(*j, y),
    {
        match j {
            Json::Object(f) => {
                let defense = match member_i32(f, "defense") {
                    Some(v) => v,
                    None => {
                        return Err(RiotApiError::SchemaError);
                    },
                };
                let flex = match member_i32(f, "flex") {
                    Some(v) => v,
                    None => {
                        return Err(RiotApiError::SchemaError);
                    },
                };
                let offense = match member_i32(f, "offense") {
                    Some(v) => v,
                    None => {
                        return Err(RiotApiError::SchemaError);
                    },
                };
                Ok(PerkStatsDto { defense, flex, offense })
            },
            _ => Err(RiotApiError::SchemaError),
        }
    }
}

/// One rune tree of a rune setup.
#[derive(Debug, PartialEq)]
pub struct PerkStyleDto {
    pub description: String,
    pub selections: Vec<PerkStyleSelectionDto>,
    pub style: i32,
}

/// `x` is what the JSON object `j` holds, read member by member under the
/// lower-camel-case wire names; members not named here are ignored.
pub open spec fn perk_style_dto_matches(j: Json, x: PerkStyleDto) -> bool {
    match j {
        Json::Object(f) => {
            &&& as_text(lookup(f@, "description"@)) == Some(x.description@)
            &&& match lookup(f@, "selections"@) {
                Some(v) => perk_style_selection_dto_list_matches(v, x.selections@),
                None => false,
            }
            &&& as_i32(lookup(f@, "style"@)) == Some(x.style)
        },
        _ => false,
    }
}

/// `xs` is, element by element, what the JSON array `j` holds.
pub open spec fn perk_style_dto_list_matches(j: Json, xs: Seq<PerkStyleDto>) -> bool {
    match j {
        Json::Array(a) => a@.len() == xs.len() && forall|i: int|
            0 <= i < xs.len() ==> #[trigger] perk_style_dto_matches(a@[i], xs[i]),
        _ => false,
    }
}

/// Every member of a `PerkStyleDto` record except the optional ones is required: an
/// object that lacks one matches no record, so decoding it fails with a
/// schema error.
pub proof fn lemma_perk_style_dto_needs_member(j: Json, key: Seq<char>)
    requires
        j is Object,
        lookup(j->Object_0@, key) is None,
        key == "description"@
            || key == "selections"@
            || key == "style"@,
    ensures
        forall|x: PerkStyleDto| !#[trigger] perk_style_dto_matches(j, x),
{
}

impl PerkStyleDto {
    /// Reads the record from a JSON object. Fails with a schema error exactly
    /// when no record matches: a required member is missing or of the wrong
    /// kind, or an integer is out of range.
    pub fn from_json(j: &Json) -> (r: Result<PerkStyleDto, RiotApiError>)
        ensures
            r matches Ok(x) ==> perk_style_dto_matches(*j, x),
            r is Err ==> r == Err::<PerkStyleDto, RiotApiError>(RiotApiError::SchemaError)
                && forall|y: PerkStyleDto| !#[trigger] perk_style_dto_matches(*j, y),
    {
        match j {
            Json::Object(f) => {
                let description = match member_text(f, "description") {
                    Some(v) => v,
                    None => {
                        return Err(RiotApiError::SchemaError);
                    },
                };
                let selections = match member(f, "selections") {
                    Some(v) => match PerkStyleSelectionDto::list_from_json(v) {
                        Ok(d) => d,
                        Err(e) => {
                            return Err(e);
                        },
                    },
                    None => {
                        return Err(RiotApiError::SchemaError);
                    },
                };
                let style = match member_i32(f, "style") {
                    Some(v) => v,
                    None => {
                        return Err(RiotApiError::SchemaError);
                    },
                };
                Ok(PerkStyleDto { description, selections, style })
            },
            _ => Err(RiotApiError::SchemaError),
        }
    }

    /// Reads an array of records. Fails with a schema error exactly when
    /// some element does not read as a record.
    pub fn list_from_json(j: &Json) -> (r: Result<Vec<PerkStyleDto>, RiotApiError>)
        ensures
            r matches Ok(v) ==> perk_style_dto_list_matches(*j, v@),
            r is Err ==> r == Err::<Vec<PerkStyleDto>, RiotApiError>(RiotApiError::SchemaError)
                && forall|ys: Seq<PerkStyleDto>| !#[trigger] perk_style_dto_list_matches(*j, ys),
    {
        match j {
            Json::Array(a) => {
                let mut out: Vec<PerkStyleDto> = Vec::new();
                let mut i: usize = 0;
                while i < a.len()
                    invariant
                        *j == Json::Array(*a),
                        0 <= i <= a@.len(),
                        out@.len() == i,
                        forall|k: int| 0 <= k < i ==> #[trigger] perk_style_dto_matches(a@[k], out@[k]),
                    decreases a@.len() - i,
                {
                    match PerkStyleDto::from_json(&a[i]) {
                        Ok(x) => {
                            out.push(x);
                        },
                        Err(e) => {
                            proof {
                                assert forall|ys: Seq<PerkStyleDto>| !#[trigger] perk_style_dto_list_matches(*j, ys) by {
                                    if ys.len() == a@.len() {
                                        assert(!perk_style_dto_matches(a@[i as int], ys[i as int]));
                                    }
                                }
                            }
                            return Err(e);
                        },
                    }
                    i = i + 1;
                }
                Ok(out)
            },
            _ => Err(RiotApiError::SchemaError),
        }
    }
}

/// One rune chosen in a rune tree.
#[derive(Debug, PartialEq)]
pub struct PerkStyleSelectionDto {
    pub perk: i32,
    pub var1: i32,
    pub var2: i32,
    pub var3: i32,
}

/// `x` is what the JSON object `j` holds, read member by member under the
/// lower-camel-case wire names; members not named here are ignored.
pub open spec fn perk_style_selection_dto_matches(j: Json, x: PerkStyleSelectionDto) -> bool {
    match j {
        Json::Object(f) => {
            &&& as_i32(lookup(f@, "perk"@)) == Some(x.perk)
            &&& as_i32(lookup(f@, "var1"@)) == Some(x.var1)
            &&& as_i32(lookup(f@, "var2"@)) == Some(x.var2)
            &&& as_i32(lookup(f@, "var3"@)) == Some(x.var3)
        },
        _ => false,
    }
}

/// `xs` is, element by element, what the JSON array `j` holds.
pub open spec fn perk_style_selection_dto_list_matches(j: Json, xs: Seq<PerkStyleSelectionDto>) -> bool {
    match j {
        Json::Array(a) => a@.len() == xs.len() && forall|i: int|
            0 <= i < xs.len() ==> #[trigger] perk_style_selection_dto_matches(a@[i], xs[i]),
        _ => false,
    }
}

/// Every member of a `PerkStyleSelectionDto` record except the optional ones is required: an
/// object that lacks one matches no record, so decoding it fails with a
/// schema error.
pub proof fn lemma_perk_style_selection_dto_needs_member(j: Json, key: Seq<char>)
    requires
        j is Object,
        lookup(j->Object_0@, key) is None,
        key == "perk"@
            || key == "var1"@
            || key == "var2"@
            || key == "var3"@,
    ensures
        forall|x: PerkStyleSelectionDto| !#[trigger] perk_style_selection_dto_matches(j, x),
{
}

impl PerkStyleSelectionDto {
    /// Reads the record from a JSON object. Fails with a schema error exactly
    /// when no record matches: a required member is missing or of the wrong
    /// kind, or an integer is out of range.
    pub fn from_json(j: &Json) -> (r: Result<PerkStyleSelectionDto, RiotApiError>)
        ensures
            r matches Ok(x) ==> perk_style_selection_dto_matches(*j, x),
            r is Err ==> r == Err::<PerkStyleSelectionDto, RiotApiError>(RiotApiError::SchemaError)
                && forall|y: PerkStyleSelectionDto| !#[trigger] perk_style_selection_dto_matches(*j, y),
    {
        match j {
            Json::Object(f) => {
                let perk = match member_i32(f, "perk") {
                    Some(v) => v,
                    None => {
                        return Err(RiotApiError::SchemaError);
                    },
                };
                let var1 = match member_i32(f, "var1") {
                    Some(v) => v,
                    None => {
                        return Err(RiotApiError::SchemaError);
                    },
                };
                let var2 = match member_i32(f, "var2") {
                    Some(v) => v,
                    None => {
                        return Err(RiotApiError::SchemaError);
                    },
                };
                let var3 = match member_i32(f, "var3") {
                    Some(v) => v,
                    None => {
                        return Err(RiotApiError::SchemaError);
                    },
                };
                Ok(PerkStyleSelectionDto { perk, var1, var2, var3 })
            },
            _ => Err(RiotApiError::SchemaError),
        }
    }

    /// Reads an array of records. Fails with a schema error exactly when
    /// some element does not read as a record.
    pub fn list_from_json(j: &Json) -> (r: Result<Vec<PerkStyleSelectionDto>, RiotApiError>)
        ensures
            r matches Ok(v) ==> perk_style_selection_dto_list_matches(*j, v@),
            r is Err ==> r == Err::<Vec<PerkStyleSelectionDto>, RiotApiError>(RiotApiError::SchemaError)
                && forall|ys: Seq<PerkStyleSelectionDto>| !#[trigger] perk_style_selection_dto_list_matches(*j, ys),
    {
        match j {
            Json::Array(a) => {
                let mut out: Vec<PerkStyleSelectionDto> = Vec::new();
                let mut i: usize = 0;
                while i < a.len()
                    invariant
                        *j == Json::Array(*a),
                        0 <= i <= a@.len(),
                        out@.len() == i,
                        forall|k: int| 0 <= k < i ==> #[trigger] perk_style_selection_dto_matches(a@[k], out@[k]),
                    decreases a@.len() - i,
                {
                    match PerkStyleSelectionDto::from_json(&a[i]) {
                        Ok(x) => {
                            out.push(x);
                        },
                        Err(e) => {
                            proof {
                                assert forall|ys: Seq<PerkStyleSelectionDto>| !#[trigger] perk_style_selection_dto_list_matches(*j, ys) by {
                                    if ys.len() == a@.len() {
                                        assert(!perk_style_selection_dto_matches(a@[i as int], ys[i as int]));
                                    }
                                }
                            }
                            return Err(e);
                        },
                    }
                    i = i + 1;
                }
                Ok(out)
            },
            _ => Err(RiotApiError::SchemaError),
        }
    }
}

/// One side of a match.
#[derive(Debug, PartialEq)]
pub struct TeamDto {
    pub bans: Vec<BanDto>,
    pub objectives: ObjectivesDto,
    pub team_id: i32,
    pub win: bool,
}

/// `x` is what the JSON object `j` holds, read member by member under the
/// lower-camel-case wire names; members not named here are ignored.
pub open spec fn team_dto_matches(j: Json, x: TeamDto) -> bool {
    match j {
        Json::Object(f) => {
            &&& match lookup(f@, "bans"@) {
                Some(v) => ban_dto_list_matches(v, x.bans@),
                None => false,
            }
            &&& match lookup(f@, "objectives"@) {
                Some(v) => objectives_dto_matches(v, x.objectives),
                None => false,
            }
            &&& as_i32(lookup(f@, "teamId"@)) == Some(x.team_id)
            &&& as_bool(lookup(f@, "win"@)) == Some(x.win)
        },
        _ => false,
    }
}

/// `xs` is, element by element, what the JSON array `j` holds.
pub open spec fn team_dto_list_matches(j: Json, xs: Seq<TeamDto>) -> bool {
    match j {
        Json::Array(a) => a@.len() == xs.len() && forall|i: int|
            0 <= i < xs.len() ==> #[trigger] team_dto_matches(a@[i], xs[i]),
        _ => false,
    }
}

/// Every member of a `TeamDto` record except the optional ones is required: an
/// object that lacks one matches no record, so decoding it fails with a
/// schema error.
pub proof fn lemma_team_dto_needs_member(j: Json, key: Seq<char>)
    requires
        j is Object,
        lookup(j->Object_0@, key) is None,
        key == "bans"@
            || key == "objectives"@
            || key == "teamId"@
            || key == "win"@,
    ensures
        forall|x: TeamDto| !#[trigger] team_dto_matches(j, x),
{
}

impl TeamDto {
    /// Reads the record from a JSON object. Fails with a schema error exactly
    /// when no record matches: a required member is missing or of the wrong
    /// kind, or an integer is out of range.
    pub fn from_json(j: &Json) -> (r: Result<TeamDto, RiotApiError>)
        ensures
            r matches Ok(x) ==> team_dto_matches(*j, x),
            r is Err ==> r == Err::<TeamDto, RiotApiError>(RiotApiError::SchemaError)
                && forall|y: TeamDto| !#[trigger] team_dto_matches(*j, y),
    {
        match j {
            Json::Object(f) => {
                let bans = match member(f, "bans") {
                    Some(v) => match BanDto::list_from_json(v) {
                        Ok(d) => d,
                        Err(e) => {
                            return Err(e);
                        },
                    },
                    None => {
                        return Err(RiotApiError::SchemaError);
                    },
                };
                let objectives = match member(f, "objectives") {
                    Some(v) => match ObjectivesDto::from_json(v) {
                        Ok(d) => d,
                        Err(e) => {
                            return Err(e);
                        },
                    },
                    None => {
                        return Err(RiotApiError::SchemaError);
                    },
                };
                let team_id = match member_i32(f, "teamId") {
                    Some(v) => v,
                    None => {
                        return Err(RiotApiError::SchemaError);
                    },
                };
                let win = match member_bool(f, "win") {
                    Some(v) => v,
                    None => {
                        return Err(RiotApiError::SchemaError);
                    },
                };
                Ok(TeamDto { bans, objectives, team_id, win })
            },
            _ => Err(RiotApiError::SchemaError),
        }
    }

    /// Reads an array of records. Fails with a schema error exactly when
    /// some element does not read as a record.
    pub fn list_from_json(j: &Json) -> (r: Result<Vec<TeamDto>, RiotApiError>)
        ensures
            r matches Ok(v) ==> team_dto_list_matches(*j, v@),
            r is Err ==> r == Err::<Vec<TeamDto>, RiotApiError>(RiotApiError::SchemaError)
                && forall|ys: Seq<TeamDto>| !#[trigger] team_dto_list_matches(*j, ys),
    {
        match j {
            Json::Array(a) => {
                let mut out: Vec<TeamDto> = Vec::new();
                let mut i: usize = 0;
                while i < a.len()
                    invariant
                        *j == Json::Array(*a),
                        0 <= i <= a@.len(),
                        out@.len() == i,
                        forall|k: int| 0 <= k < i ==> #[trigger] team_dto_matches(a@[k], out@[k]),
                    decreases a@.len() - i,
                {
                    match TeamDto::from_json(&a[i]) {
                        Ok(x) => {
                            out.push(x);
                        },
                        Err(e) => {
                            proof {
                                assert forall|ys: Seq<TeamDto>| !#[trigger] team_dto_list_matches(*j, ys) by {
                                    if ys.len() == a@.len() {
                                        assert(!team_dto_matches(a@[i as int], ys[i as int]));
                                    }
                                }
                            }
                            return Err(e);
                        },
                    }
                    i = i + 1;
                }
                Ok(out)
            },
            _ => Err(RiotApiError::SchemaError),
        }
    }
}

/// A champion banned by a team.
#[derive(Debug, PartialEq)]
pub struct BanDto {
    pub champion_id: i32,
    pub pick_turn: i32,
}

/// `x` is what the JSON object `j` holds, read member by member under the
/// lower-camel-case wire names; members not named here are ignored.
pub open spec fn ban_dto_matches(j: Json, x: BanDto) -> bool {
    match j {
        Json::Object(f) => {
            &&& as_i32(lookup(f@, "championId"@)) == Some(x.champion_id)
            &&& as_i32(lookup(f@, "pickTurn"@)) == Some(x.pick_turn)
        },
        _ => false,
    }
}

/// `xs` is, element by element, what the JSON array `j` holds.
pub open spec fn ban_dto_list_matches(j: Json, xs: Seq<BanDto>) -> bool {
    match j {
        Json::Array(a) => a@.len() == xs.len() && forall|i: int|
            0 <= i < xs.len() ==> #[trigger] ban_dto_matches(a@[i], xs[i]),
        _ => false,
    }
}

/// Every member of a `BanDto` record except the optional ones is required: an
/// object that lacks one matches no record, so decoding it fails with a
/// schema error.
pub proof fn lemma_ban_dto_needs_member(j: Json, key: Seq<char>)
    requires
        j is Object,
        lookup(j->Object_0@, key) is None,
        key == "championId"@
            || key == "pickTurn"@,
    ensures
        forall|x: BanDto| !#[trigger] ban_dto_matches(j, x),
{
}

impl BanDto {
    /// Reads the record from a JSON object. Fails with a schema error exactly
    /// when no record matches: a required member is missing or of the wrong
    /// kind, or an integer is out of range.
    pub fn from_json(j: &Json) -> (r: Result<BanDto, RiotApiError>)
        ensures
            r matches Ok(x) ==> ban_dto_matches(*j, x),
            r is Err ==> r == Err::<BanDto, RiotApiError>(RiotApiError::SchemaError)
                && forall|y: BanDto| !#[trigger] ban_dto_matches(*j, y),
    {
        match j {
            Json::Object(f) => {
                let champion_id = match member_i32(f, "championId") {
                    Some(v) => v,
                    None => {
                        return Err(RiotApiError::SchemaError);
                    },
                };
                let pick_turn = match member_i32(f, "pickTurn") {
                    Some(v) => v,
                    None => {
                        return Err(RiotApiError::SchemaError);
                    },
                };
                Ok(BanDto { champion_id, pick_turn })
            },
            _ => Err(RiotApiError::SchemaError),
        }
    }

    /// Reads an array of records. Fails with a schema error exactly when
    /// some element does not read as a record.
    pub fn list_from_json(j: &Json) -> (r: Result<Vec<BanDto>, RiotApiError>)
        ensures
            r matches Ok(v) ==> ban_dto_list_matches(*j, v@),
            r is Err ==> r == Err::<Vec<BanDto>, RiotApiError>(RiotApiError::SchemaError)
                && forall|ys: Seq<BanDto>| !#[trigger] ban_dto_list_matches(*j, ys),
    {
        match j {
            Json::Array(a) => {
                let mut out: Vec<BanDto> = Vec::new();
                let mut i: usize = 0;
                while i < a.len()
                    invariant
                        *j == Json::Array(*a),
                        0 <= i <= a@.len(),
                        out@.len() == i,
                        forall|k: int| 0 <= k < i ==> #[trigger] ban_dto_matches(a@[k], out@[k]),
                    decreases a@.len() - i,
                {
                    match BanDto::from_json(&a[i]) {
                        Ok(x) => {
                            out.push(x);
                        },
                        Err(e) => {
                            proof {
                                assert forall|ys: Seq<BanDto>| !#[trigger] ban_dto_list_matches(*j, ys) by {
                                    if ys.len() == a@.len() {
                                        assert(!ban_dto_matches(a@[i as int], ys[i as int]));
                                    }
                                }
                            }
                            return Err(e);
                        },
                    }
                    i = i + 1;
                }
                Ok(out)
            },
            _ => Err(RiotApiError::SchemaError),
        }
    }
}

/// The objectives a team took.
#[derive(Debug, PartialEq)]
pub struct ObjectivesDto {
    pub baron: ObjectiveDto,
    pub champion: ObjectiveDto,
    pub dragon: ObjectiveDto,
    pub horde: ObjectiveDto,
    pub inhibitor: ObjectiveDto,
    pub rift_herald: ObjectiveDto,
    pub tower: ObjectiveDto,
}

/// `x` is what the JSON object `j` holds, read member by member under the
/// lower-camel-case wire names; members not named here are ignored.
pub open spec fn objectives_dto_matches(j: Json, x: ObjectivesDto) -> bool {
    match j {
        Json::Object(f) => {
            &&& match lookup(f@, "baron"@) {
                Some(v) => objective_dto_matches(v, x.baron),
                None => false,
            }
            &&& match lookup(f@, "champion"@) {
                Some(v) => objective_dto_matches(v, x.champion),
                None => false,
            }
            &&& match lookup(f@, "dragon"@) {
                Some(v) => objective_dto_matches(v, x.dragon),
                None => false,
            }
            &&& match lookup(f@, "horde"@) {
                Some(v) => objective_dto_matches(v, x.horde),
                None => false,
            }
            &&& match lookup(f@, "inhibitor"@) {
                Some(v) => objective_dto_matches(v, x.inhibitor),
                None => false,
            }
            &&& match lookup(f@, "riftHerald"@) {
                Some(v) => objective_dto_matches(v, x.rift_herald),
                None => false,
            }
            &&& match lookup(f@, "tower"@) {
                Some(v) => objective_dto_matches(v, x.tower),
                None => false,
            }
        },
        _ => false,
    }
}

/// Every member of a `ObjectivesDto` record except the optional ones is required: an
/// object that lacks one matches no record, so decoding it fails with a
/// schema error.
pub proof fn lemma_objectives_dto_needs_member(j: Json, key: Seq<char>)
    requires
        j is Object,
        lookup(j->Object_0@, key) is None,
        key == "baron"@
            || key == "champion"@
            || key == "dragon"@
            || key == "horde"@
            || key == "inhibitor"@
            || key == "riftHerald"@
            || key == "tower"@,
    ensures
        forall|x: ObjectivesDto| !#[trigger] objectives_dto_matches(j, x),
{
}

impl ObjectivesDto {
    /// Reads the record from a JSON object. Fails with a schema error exactly
    /// when no record matches: a required member is missing or of the wrong
    /// kind, or an integer is out of range.
    pub fn from_json(j: &Json) -> (r: Result<ObjectivesDto, RiotApiError>)
        ensures
            r matches Ok(x) ==> objectives_dto_matches(*j, x),
            r is Err ==> r == Err::<ObjectivesDto, RiotApiError>(RiotApiError::SchemaError)
                && forall|y: ObjectivesDto| !#[trigger] objectives_dto_matches(*j, y),
    {
        match j {
            Json::Object(f) => {
                let baron = match member(f, "baron") {
                    Some(v) => match ObjectiveDto::from_json(v) {
                        Ok(d) => d,
                        Err(e) => {
                            return Err(e);
                        },
                    },
                    None => {
                        return Err(RiotApiError::SchemaError);
                    },
                };
                let champion = match member(f, "champion") {
                    Some(v) => match ObjectiveDto::from_json(v) {
                        Ok(d) => d,
                        Err(e) => {
                            return Err(e);
                        },
                    },
                    None => {
                        return Err(RiotApiError::SchemaError);
                    },
                };
                let dragon = match member(f, "dragon") {
                    Some(v) => match ObjectiveDto::from_json(v) {
                        Ok(d) => d,
                        Err(e) => {
                            return Err(e);
                        },
                    },
                    None => {
                        return Err(RiotApiError::SchemaError);
                    },
                };
                let horde = match member(f, "horde") {
                    Some(v) => match ObjectiveDto::from_json(v) {
                        Ok(d) => d,
                        Err(e) => {
                            return Err(e);
                        },
                    },
                    None => {
                        return Err(RiotApiError::SchemaError);
                    },
                };
                let inhibitor = match member(f, "inhibitor") {
                    Some(v) => match ObjectiveDto::from_json(v) {
                        Ok(d) => d,
                        Err(e) => {
                            return Err(e);
                        },
                    },
                    None => {
                        return Err(RiotApiError::SchemaError);
                    },
                };
                let rift_herald = match member(f, "riftHerald") {
                    Some(v) => match ObjectiveDto::from_json(v) {
                        Ok(d) => d,
                        Err(e) => {
                            return Err(e);
                        },
                    },
                    None => {
                        return Err(RiotApiError::SchemaError);
                    },
                };
                let tower = match member(f, "tower") {
                    Some(v) => match ObjectiveDto::from_json(v) {
                        Ok(d) => d,
                        Err(e) => {
                            return Err(e);
                        },
                    },
                    None => {
                        return Err(RiotApiError::SchemaError);
                    },
                };
                Ok(ObjectivesDto {
                    baron,
                    champion,
                    dragon,
                    horde,
                    inhibitor,
                    rift_herald,
                    tower,
                })
            },
            _ => Err(RiotApiError::SchemaError),
        }
    }
}

/// A count of one kind of objective.
#[derive(Debug, PartialEq)]
pub struct ObjectiveDto {
    pub first: bool,
    pub kills: i32,
}

/// `x` is what the JSON object `j` holds, read member by member under the
/// lower-camel-case wire names; members not named here are ignored.
pub open spec fn objective_dto_matches(j: Json, x: ObjectiveDto) -> bool {
    match j {
        Json::Object(f) => {
            &&& as_bool(lookup(f@, "first"@)) == Some(x.first)
            &&& as_i32(lookup(f@, "kills"@)) == Some(x.kills)
        },
        _ => false,
    }
}

/// Every member of a `ObjectiveDto` record except the optional ones is required: an
/// object that lacks one matches no record, so decoding it fails with a
/// schema error.
pub proof fn lemma_objective_dto_needs_member(j: Json, key: Seq<char>)
    requires
        j is Object,
        lookup(j->Object_0@, key) is None,
        key == "first"@
            || key == "kills"@,
    ensures
        forall|x: ObjectiveDto| !#[trigger] objective_dto_matches(j, x),
{
}

impl ObjectiveDto {
    /// Reads the record from a JSON object. Fails with a schema error exactly
    /// when no record matches: a required member is missing or of the wrong
    /// kind, or an integer is out of range.
    pub fn from_json(j: &Json) -> (r: Result<ObjectiveDto, RiotApiError>)
        ensures
            r matches Ok(x) ==> objective_dto_matches(*j, x),
            r is Err ==> r == Err::<ObjectiveDto, RiotApiError>(RiotApiError::SchemaError)
                && forall|y: ObjectiveDto| !#[trigger] objective_dto_matches(*j, y),
    {
        match j {
            Json::Object(f) => {
                let first = match member_bool(f, "first") {
                    Some(v) => v,
                    None => {
                        return Err(RiotApiError::SchemaError);
                    },
                };
                let kills = match member_i32(f, "kills") {
                    Some(v) => v,
                    None => {
                        return Err(RiotApiError::SchemaError);
                    },
                };
                Ok(ObjectiveDto { first, kills })
            },
            _ => Err(RiotApiError::SchemaError),
        }
    }
}

/// A summoner profile on one platform.
#[derive(Debug, PartialEq)]
pub struct SummonerV4 {
    pub account_id: String,
    pub profile_icon_id: u32,
    pub revision_date: u64,
    pub id: String,
    pub puuid: String,
    pub summoner_level: u64,
}

/// `x` is what the JSON object `j` holds, read member by member under the
/// lower-camel-case wire names; members not named here are ignored.
pub open spec fn summoner_v4_matches(j: Json, x: SummonerV4) -> bool {
    match j {
        Json::Object(f) => {
            &&& as_text(lookup(f@, "accountId"@)) == Some(x.account_id@)
            &&& as_u32(lookup(f@, "profileIconId"@)) == Some(x.profile_icon_id)
            &&& as_u64(lookup(f@, "revisionDate"@)) == Some(x.revision_date)
            &&& as_text(lookup(f@, "id"@)) == Some(x.id@)
            &&& as_text(lookup(f@, "puuid"@)) == Some(x.puuid@)
            &&& as_u64(lookup(f@, "summonerLevel"@)) == Some(x.summoner_level)
        },
        _ => false,
    }
}

/// Every member of a `SummonerV4` record except the optional ones is required: an
/// object that lacks one matches no record, so decoding it fails with a
/// schema error.
pub proof fn lemma_summoner_v4_needs_member(j: Json, key: Seq<char>)
    requires
        j is Object,
        lookup(j->Object_0@, key) is None,
        key == "accountId"@
            || key == "profileIconId"@
            || key == "revisionDate"@
            || key == "id"@
            || key == "puuid"@
            || key == "summonerLevel"@,
    ensures
        forall|x: SummonerV4| !#[trigger] summoner_v4_matches(j, x),
{
}

impl SummonerV4 {
    /// Reads the record from a JSON object. Fails with a schema error exactly
    /// when no record matches: a required member is missing or of the wrong
    /// kind, or an integer is out of range.
    pub fn from_json(j: &Json) -> (r: Result<SummonerV4, RiotApiError>)
        ensures
            r matches Ok(x) ==> summoner_v4_matches(*j, x),
            r is Err ==> r == Err::<SummonerV4, RiotApiError>(RiotApiError::SchemaError)
                && forall|y: SummonerV4| !#[trigger] summoner_v4_matches(*j, y),
    {
        match j {
            Json::Object(f) => {
                let account_id = match member_text(f, "accountId") {
                    Some(v) => v,
                    None => {
                        return Err(RiotApiError::SchemaError);
                    },
                };
                let profile_icon_id = match member_u32(f, "profileIconId") {
                    Some(v) => v,
                    None => {
                        return Err(RiotApiError::SchemaError);
                    },
                };
                let revision_date = match member_u64(f, "revisionDate") {
                    Some(v) => v,
                    None => {
                        return Err(RiotApiError::SchemaError);
                    },
                };
                let id = match member_text(f, "id") {
                    Some(v) => v,
                    None => {
                        return Err(RiotApiError::SchemaError);
                    },
                };
                let puuid = match member_text(f, "puuid") {
                    Some(v) => v,
                    None => {
                        return Err(RiotApiError::SchemaError);
                    },
                };
                let summoner_level = match member_u64(f, "summonerLevel") {
                    Some(v) => v,
                    None => {
                        return Err(RiotApiError::SchemaError);
                    },
                };
                Ok(SummonerV4 {
                    account_id,
                    profile_icon_id,
                    revision_date,
                    id,
                    puuid,
                    summoner_level,
                })
            },
            _ => Err(RiotApiError::SchemaError),
        }
    }
}

} // verus!
