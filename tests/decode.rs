use lol_lookup::dto::{AccountV1, LeagueV4, MatchV5Match, ObjectiveDto, SummonerV4};
use lol_lookup::error::RiotApiError;
use lol_lookup::json::Json;

fn from_value(v: serde_json::Value) -> Json {
    match v {
        serde_json::Value::Null => Json::Null,
        serde_json::Value::Bool(b) => Json::Bool(b),
        serde_json::Value::Number(n) => match (n.as_i64(), n.as_u64()) {
            (Some(i), _) => Json::Int(i as i128),
            (None, Some(u)) => Json::Int(u as i128),
            _ => Json::Fractional,
        },
        serde_json::Value::String(s) => Json::Str(s),
        serde_json::Value::Array(a) => Json::Array(a.into_iter().map(from_value).collect()),
        serde_json::Value::Object(o) => Json::Object(o.into_iter().map(|(k, x)| (k, from_value(x))).collect()),
    }
}

fn parse(text: &str) -> Json {
    from_value(serde_json::from_str(text).unwrap())
}

const MATCH: &str = r#"{"metadata": {"dataVersion": "data_version-v", "matchId": "match_id-v", "participants": ["p-1", "p-2"], "extra": "x"}, "info": {"endOfGameResult": "end_of_game_result-v", "gameCreation": 1001, "gameDuration": 1002, "gameEndTimestamp": 1003, "gameId": 1004, "gameMode": "game_mode-v", "gameName": "game_name-v", "gameStartTimestamp": 1005, "gameType": "game_type-v", "gameVersion": "game_version-v", "mapId": 1006, "participants": [{"allInPings": 1007, "assistMePings": 1008, "assists": 1009, "baronKills": 1010, "bountyLevel": 1011, "champExperience": 1012, "champLevel": 1013, "championId": 1014, "championName": "champion_name-v", "commandPings": 1015, "championTransform": 1016, "consumablesPurchased": 1017, "damageDealtToBuildings": 1018, "damageDealtToObjectives": 1019, "damageDealtToTurrets": 1020, "damageSelfMitigated": 1021, "deaths": 1022, "detectorWardsPlaced": 1023, "doubleKills": 1024, "dragonKills": 1025, "eligibleForProgression": true, "enemyMissingPings": 1026, "enemyVisionPings": 1027, "firstBloodAssist": true, "firstBloodKill": true, "firstTowerAssist": true, "firstTowerKill": true, "gameEndedInEarlySurrender": false, "gameEndedInSurrender": false, "holdPings": 1028, "getBackPings": 1029, "goldEarned": 1030, "goldSpent": 1031, "individualPosition": "individual_position-v", "inhibitorKills": 1032, "inhibitorTakedowns": 1033, "inhibitorsLost": 1034, "item0": 1035, "item1": 1036, "item2": 1037, "item3": 1038, "item4": 1039, "item5": 1040, "item6": 1041, "itemsPurchased": 1042, "killingSprees": 1043, "kills": 1044, "lane": "lane-v", "largestCriticalStrike": 1045, "largestKillingSpree": 1046, "largestMultiKill": 1047, "longestTimeSpentLiving": 1048, "magicDamageDealt": 1049, "magicDamageDealtToChampions": 1050, "magicDamageTaken": 1051, "neutralMinionsKilled": 1052, "needVisionPings": 1053, "nexusKills": 1054, "nexusTakedowns": 1055, "nexusLost": 1056, "objectivesStolen": 1057, "objectivesStolenAssists": 1058, "onMyWayPings": 1059, "participantId": 1060, "pentaKills": 1061, "perks": {"statPerks": {"defense": 1062, "flex": 1063, "offense": 1064}, "styles": [{"description": "description-v", "selections": [{"perk": 1065, "var1": 1066, "var2": 1067, "var3": 1068}, {"perk": 1069, "var1": 1070, "var2": 1071, "var3": 1072}], "style": 1073}, {"description": "description-v", "selections": [{"perk": 1074, "var1": 1075, "var2": 1076, "var3": 1077}, {"perk": 1078, "var1": 1079, "var2": 1080, "var3": 1081}], "style": 1082}]}, "physicalDamageDealt": 1083, "physicalDamageDealtToChampions": 1084, "physicalDamageTaken": 1085, "placement": 1086, "playerAugment1": 1087, "playerAugment2": 1088, "playerAugment3": 1089, "playerAugment4": 1090, "playerSubteamId": 1091, "pushPings": 1092, "profileIcon": 1093, "puuid": "puuid-v", "quadraKills": 1094, "riotIdGameName": "riot_id_game_name-v", "riotIdTagline": "riot_id_tagline-v", "role": "role-v", "sightWardsBoughtInGame": 1095, "spell1Casts": 1096, "spell2Casts": 1097, "spell3Casts": 1098, "spell4Casts": 1099, "subteamPlacement": 1100, "summoner1Casts": 1101, "summoner1Id": 1102, "summoner2Casts": 1103, "summoner2Id": 1104, "summonerId": "summoner_id-v", "summonerLevel": 1105, "summonerName": "summoner_name-v", "teamEarlySurrendered": true, "teamId": 1106, "teamPosition": "team_position-v", "timePlayed": 1107, "totalAllyJungleMinionsKilled": 1108, "totalDamageDealt": 1109, "totalDamageDealtToChampions": 1110, "totalDamageShieldedOnTeammates": 1111, "totalDamageTaken": 1112, "totalEnemyJungleMinionsKilled": 1113, "totalHeal": 1114, "totalHealsOnTeammates": 1115, "totalMinionsKilled": 1116, "totalTimeSpentDead": 1117, "totalUnitsHealed": 1118, "tripleKills": 1119, "trueDamageDealt": 1120, "trueDamageDealtToChampions": 1121, "trueDamageTaken": 1122, "turretKills": 1123, "turretTakedowns": 1124, "turretsLost": 1125, "unrealKills": 1126, "visionScore": 1127, "visionClearedPings": 1128, "visionWardsBoughtInGame": 1129, "wardsKilled": 1130, "wardsPlaced": 1131, "win": false, "challenges": {"kda": 2.5}}, {"allInPings": 1132, "assistMePings": 1133, "assists": 1134, "baronKills": 1135, "bountyLevel": 1136, "champExperience": 1137, "champLevel": 1138, "championId": 1139, "championName": "champion_name-v", "commandPings": 1140, "championTransform": 1141, "consumablesPurchased": 1142, "damageDealtToBuildings": 1143, "damageDealtToObjectives": 1144, "damageDealtToTurrets": 1145, "damageSelfMitigated": 1146, "deaths": 1147, "detectorWardsPlaced": 1148, "doubleKills": 1149, "dragonKills": 1150, "eligibleForProgression": true, "enemyMissingPings": 1151, "enemyVisionPings": 1152, "firstBloodAssist": true, "firstBloodKill": true, "firstTowerAssist": true, "firstTowerKill": true, "gameEndedInEarlySurrender": false, "gameEndedInSurrender": false, "holdPings": 1153, "getBackPings": 1154, "goldEarned": 1155, "goldSpent": 1156, "individualPosition": "individual_position-v", "inhibitorKills": 1157, "inhibitorTakedowns": 1158, "inhibitorsLost": 1159, "item0": 1160, "item1": 1161, "item2": 1162, "item3": 1163, "item4": 1164, "item5": 1165, "item6": 1166, "itemsPurchased": 1167, "killingSprees": 1168, "kills": 1169, "lane": "lane-v", "largestCriticalStrike": 1170, "largestKillingSpree": 1171, "largestMultiKill": 1172, "longestTimeSpentLiving": 1173, "magicDamageDealt": 1174, "magicDamageDealtToChampions": 1175, "magicDamageTaken": 1176, "neutralMinionsKilled": 1177, "needVisionPings": 1178, "nexusKills": 1179, "nexusTakedowns": 1180, "nexusLost": 1181, "objectivesStolen": 1182, "objectivesStolenAssists": 1183, "onMyWayPings": 1184, "participantId": 1185, "pentaKills": 1186, "perks": {"statPerks": {"defense": 1187, "flex": 1188, "offense": 1189}, "styles": [{"description": "description-v", "selections": [{"perk": 1190, "var1": 1191, "var2": 1192, "var3": 1193}, {"perk": 1194, "var1": 1195, "var2": 1196, "var3": 1197}], "style": 1198}, {"description": "description-v", "selections": [{"perk": 1199, "var1": 1200, "var2": 1201, "var3": 1202}, {"perk": 1203, "var1": 1204, "var2": 1205, "var3": 1206}], "style": 1207}]}, "physicalDamageDealt": 1208, "physicalDamageDealtToChampions": 1209, "physicalDamageTaken": 1210, "placement": 1211, "playerAugment1": 1212, "playerAugment2": 1213, "playerAugment3": 1214, "playerAugment4": 1215, "playerSubteamId": 1216, "pushPings": 1217, "profileIcon": 1218, "puuid": "puuid-v", "quadraKills": 1219, "riotIdGameName": "riot_id_game_name-v", "riotIdTagline": "riot_id_tagline-v", "role": "role-v", "sightWardsBoughtInGame": 1220, "spell1Casts": 1221, "spell2Casts": 1222, "spell3Casts": 1223, "spell4Casts": 1224, "subteamPlacement": 1225, "summoner1Casts": 1226, "summoner1Id": 1227, "summoner2Casts": 1228, "summoner2Id": 1229, "summonerId": "summoner_id-v", "summonerLevel": 1230, "summonerName": "summoner_name-v", "teamEarlySurrendered": true, "teamId": 1231, "teamPosition": "team_position-v", "timePlayed": 1232, "totalAllyJungleMinionsKilled": 1233, "totalDamageDealt": 1234, "totalDamageDealtToChampions": 1235, "totalDamageShieldedOnTeammates": 1236, "totalDamageTaken": 1237, "totalEnemyJungleMinionsKilled": 1238, "totalHeal": 1239, "totalHealsOnTeammates": 1240, "totalMinionsKilled": 1241, "totalTimeSpentDead": 1242, "totalUnitsHealed": 1243, "tripleKills": 1244, "trueDamageDealt": 1245, "trueDamageDealtToChampions": 1246, "trueDamageTaken": 1247, "turretKills": 1248, "turretTakedowns": 1249, "turretsLost": 1250, "unrealKills": 1251, "visionScore": 1252, "visionClearedPings": 1253, "visionWardsBoughtInGame": 1254, "wardsKilled": 1255, "wardsPlaced": 1256, "win": false}], "platformId": "platform_id-v", "queueId": 1257, "teams": [{"bans": [{"championId": 1258, "pickTurn": 1259}, {"championId": 1260, "pickTurn": 1261}], "objectives": {"baron": {"first": false, "kills": 1262}, "champion": {"first": false, "kills": 1263}, "dragon": {"first": false, "kills": 1264}, "horde": {"first": false, "kills": 1265}, "inhibitor": {"first": false, "kills": 1266}, "riftHerald": {"first": false, "kills": 1267}, "tower": {"first": false, "kills": 1268}}, "teamId": 1269, "win": false}, {"bans": [{"championId": 1270, "pickTurn": 1271}, {"championId": 1272, "pickTurn": 1273}], "objectives": {"baron": {"first": false, "kills": 1274}, "champion": {"first": false, "kills": 1275}, "dragon": {"first": false, "kills": 1276}, "horde": {"first": false, "kills": 1277}, "inhibitor": {"first": false, "kills": 1278}, "riftHerald": {"first": false, "kills": 1279}, "tower": {"first": false, "kills": 1280}}, "teamId": 1281, "win": false}], "tournamentCode": "code-tournament_code"}}"#;

#[test]
fn account_decodes_literal_values() {
    let a = AccountV1::from_json(&parse(r#"{"puuid":"abc","gameName":"Foo","tagLine":"EUW"}"#)).unwrap();
    assert_eq!(a.puuid, "abc");
    assert_eq!(a.game_name, "Foo");
    assert_eq!(a.tag_line, "EUW");
}

#[test]
fn account_missing_member_is_schema_error() {
    let r = AccountV1::from_json(&parse(r#"{"puuid":"abc","gameName":"Foo"}"#));
    assert_eq!(r.unwrap_err(), RiotApiError::SchemaError);
}

#[test]
fn account_member_of_wrong_kind_is_schema_error() {
    let r = AccountV1::from_json(&parse(r#"{"puuid":"abc","gameName":7,"tagLine":"EUW"}"#));
    assert_eq!(r.unwrap_err(), RiotApiError::SchemaError);
    let r = AccountV1::from_json(&parse(r#"["abc","Foo","EUW"]"#));
    assert_eq!(r.unwrap_err(), RiotApiError::SchemaError);
}

#[test]
fn unknown_members_are_ignored() {
    let a = AccountV1::from_json(&parse(r#"{"tagLine":"EUW","extra":[1,2],"puuid":"abc","gameName":"Foo"}"#)).unwrap();
    assert_eq!(a.puuid, "abc");
    assert_eq!(a.tag_line, "EUW");
}

#[test]
fn summoner_decodes_literal_values() {
    let s = SummonerV4::from_json(&parse(
        r#"{"accountId":"acc","profileIconId":4567,"revisionDate":1700000000000,"id":"sid","puuid":"abc","summonerLevel":321}"#,
    ))
    .unwrap();
    assert_eq!(s.account_id, "acc");
    assert_eq!(s.profile_icon_id, 4567);
    assert_eq!(s.revision_date, 1700000000000);
    assert_eq!(s.id, "sid");
    assert_eq!(s.puuid, "abc");
    assert_eq!(s.summoner_level, 321);
}

#[test]
fn summoner_integer_out_of_range_is_schema_error() {
    let r = SummonerV4::from_json(&parse(
        r#"{"accountId":"acc","profileIconId":-1,"revisionDate":1,"id":"sid","puuid":"abc","summonerLevel":1}"#,
    ));
    assert_eq!(r.unwrap_err(), RiotApiError::SchemaError);
    let r = SummonerV4::from_json(&parse(
        r#"{"accountId":"acc","profileIconId":1.5,"revisionDate":1,"id":"sid","puuid":"abc","summonerLevel":1}"#,
    ));
    assert_eq!(r.unwrap_err(), RiotApiError::SchemaError);
}

#[test]
fn league_list_decodes_literal_values() {
    let v = LeagueV4::list_from_json(&parse(
        r#"[{"leagueId":"L","queueType":"RANKED_SOLO_5x5","tier":"GOLD","rank":"II","summonerId":"s","puuid":"abc","leaguePoints":42,"wins":10,"losses":8,"veteran":false,"inactive":false,"freshBlood":true,"hotStreak":true}]"#,
    ))
    .unwrap();
    assert_eq!(v.len(), 1);
    assert_eq!(v[0].league_id, "L");
    assert_eq!(v[0].queue_type, "RANKED_SOLO_5x5");
    assert_eq!(v[0].tier, "GOLD");
    assert_eq!(v[0].rank, "II");
    assert_eq!(v[0].league_points, 42);
    assert_eq!(v[0].wins, 10);
    assert_eq!(v[0].losses, 8);
    assert!(!v[0].veteran);
    assert!(v[0].fresh_blood);
    assert!(v[0].hot_streak);
    assert_eq!(LeagueV4::list_from_json(&parse("[]")).unwrap().len(), 0);
}

#[test]
fn league_list_with_a_bad_element_is_schema_error() {
    let r = LeagueV4::list_from_json(&parse(r#"[{"leagueId":"L"}]"#));
    assert_eq!(r.unwrap_err(), RiotApiError::SchemaError);
}

#[test]
fn match_record_decodes_literal_values() {
    let m = MatchV5Match::from_json(&parse(MATCH)).unwrap();
    assert_eq!(m.metadata.data_version, "data_version-v");
    assert_eq!(m.metadata.match_id, "match_id-v");
    assert_eq!(m.metadata.participants, vec!["p-1".to_string(), "p-2".to_string()]);
    assert_eq!(m.info.game_creation, 1001);
    assert_eq!(m.info.game_end_timestamp, Some(1003));
    assert_eq!(m.info.game_id, 1004);
    assert_eq!(m.info.map_id, 1006);
    assert_eq!(m.info.tournament_code, Some("code-tournament_code".to_string()));
    assert_eq!(m.info.participants.len(), 2);
    assert_eq!(m.info.participants[0].all_in_pings, 1007);
    assert_eq!(m.info.participants[0].champion_name, "champion_name-v");
    assert_eq!(m.info.participants[0].win, false);
    assert_eq!(m.info.participants[0].item6, 1041);
    assert_eq!(m.info.participants[0].spell4_casts, 1099);
    assert_eq!(m.info.participants[0].riot_id_tagline, "riot_id_tagline-v");
    assert_eq!(m.info.participants[1].wards_placed, 1256);
    assert_eq!(m.info.participants[1].perks.stat_perks.flex, 1188);
    assert_eq!(m.info.participants[0].perks.styles[1].selections[0].var3, 1077);
    assert_eq!(m.info.participants[0].perks.styles[0].description, "description-v");
    assert_eq!(m.info.teams.len(), 2);
    assert_eq!(m.info.teams[1].objectives.rift_herald.kills, 1279);
    assert_eq!(m.info.teams[1].objectives.rift_herald.first, false);
    assert_eq!(m.info.teams[1].bans[1].pick_turn, 1273);
    assert_eq!(m.info.teams[1].team_id, 1281);
}

#[test]
fn match_optional_members_may_be_absent_or_null() {
    let mut v: serde_json::Value = serde_json::from_str(MATCH).unwrap();
    let info = v.get_mut("info").unwrap().as_object_mut().unwrap();
    info.remove("gameEndTimestamp");
    info.insert("tournamentCode".to_string(), serde_json::Value::Null);
    let m = MatchV5Match::from_json(&from_value(v)).unwrap();
    assert_eq!(m.info.game_end_timestamp, None);
    assert_eq!(m.info.tournament_code, None);
}

#[test]
fn match_missing_nested_member_is_schema_error() {
    let mut v: serde_json::Value = serde_json::from_str(MATCH).unwrap();
    let p = v["info"]["participants"][1].as_object_mut().unwrap();
    p.remove("kills");
    assert_eq!(MatchV5Match::from_json(&from_value(v)).unwrap_err(), RiotApiError::SchemaError);
}

#[test]
fn objective_decodes_and_requires_both_members() {
    let o = ObjectiveDto::from_json(&parse(r#"{"first":true,"kills":3}"#)).unwrap();
    assert!(o.first);
    assert_eq!(o.kills, 3);
    assert_eq!(ObjectiveDto::from_json(&parse(r#"{"first":true}"#)).unwrap_err(), RiotApiError::SchemaError);
    assert_eq!(ObjectiveDto::from_json(&parse(r#"{"first":true,"kills":3000000000}"#)).unwrap_err(), RiotApiError::SchemaError);
}
