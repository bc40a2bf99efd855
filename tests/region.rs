use lol_lookup::region::{parse_region, parse_routing_cluster, routing_cluster_of, DecodeError, LargeRegion, Region};

#[test]
fn parse_region_rejects_unknown_name() {
    assert_eq!(parse_region("not-a-region"), Err(DecodeError::UnknownRegion));
}

#[test]
fn parse_region_reads_na1() {
    assert_eq!(parse_region("Na1"), Ok(Region::Na1));
}

#[test]
fn parse_region_is_case_sensitive() {
    assert_eq!(parse_region("na1"), Err(DecodeError::UnknownRegion));
    assert_eq!(parse_region("NA1"), Err(DecodeError::UnknownRegion));
    assert_eq!(parse_region(""), Err(DecodeError::UnknownRegion));
    assert_eq!(parse_region("Na1 "), Err(DecodeError::UnknownRegion));
}

#[test]
fn every_region_round_trips_through_its_name() {
    let all = Region::all();
    assert_eq!(all.len(), 16);
    for r in all {
        assert_eq!(parse_region(&r.to_string()), Ok(r));
    }
}

#[test]
fn region_names_are_variant_names() {
    assert_eq!(Region::Br1.to_string(), "Br1");
    assert_eq!(Region::Kr.to_string(), "Kr");
    assert_eq!(Region::Vn2.to_string(), "Vn2");
    assert_eq!(LargeRegion::Americas.to_string(), "Americas");
    assert_eq!(LargeRegion::Sea.to_string(), "Sea");
}

#[test]
fn routing_clusters_parse_and_round_trip() {
    for c in [LargeRegion::Americas, LargeRegion::Asia, LargeRegion::Europe, LargeRegion::Sea] {
        assert_eq!(parse_routing_cluster(&c.to_string()), Ok(c));
    }
    assert_eq!(parse_routing_cluster("europe"), Err(DecodeError::UnknownRoutingCluster));
    assert_eq!(parse_routing_cluster("Na1"), Err(DecodeError::UnknownRoutingCluster));
}

#[test]
fn routing_table_covers_every_region() {
    let table = [
        (Region::Br1, LargeRegion::Americas), (Region::La1, LargeRegion::Americas), (Region::La2, LargeRegion::Americas), (Region::Na1, LargeRegion::Americas),
        (Region::Jp1, LargeRegion::Asia), (Region::Kr, LargeRegion::Asia), (Region::Tw2, LargeRegion::Asia), (Region::Vn2, LargeRegion::Asia),
        (Region::Eun1, LargeRegion::Europe), (Region::Euw1, LargeRegion::Europe), (Region::Tr1, LargeRegion::Europe), (Region::Ru, LargeRegion::Europe),
        (Region::Oc1, LargeRegion::Sea), (Region::Ph2, LargeRegion::Sea), (Region::Sg2, LargeRegion::Sea), (Region::Th2, LargeRegion::Sea),
    ];
    for (r, c) in table {
        assert_eq!(routing_cluster_of(r), c);
        assert_eq!(routing_cluster_of(r), routing_cluster_of(r));
    }
    for r in Region::all() {
        assert_eq!(table.iter().filter(|(x, _)| *x == r).count(), 1);
    }
}
