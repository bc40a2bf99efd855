use vstd::prelude::*;

verus! {

/// A platform: one specific game server cluster.
#[derive(Debug, Clone, Copy, PartialEq, Eq, Structural)]
pub enum Region {
    Br1,
    Eun1,
    Euw1,
    Jp1,
    Kr,
    La1,
    La2,
    Na1,
    Oc1,
    Tr1,
    Ru,
    Ph2,
    Sg2,
    Th2,
    Tw2,
    Vn2,
}

/// A routing cluster: the continental grouping of platforms that some
/// endpoints are served from.
#[derive(Debug, Clone, Copy, PartialEq, Eq, Structural)]
pub enum LargeRegion {
    Americas,
    Asia,
    Europe,
    Sea,
}

/// Why a region or routing cluster name was not understood.
#[derive(Debug, Clone, Copy, PartialEq, Eq, Structural)]
pub enum DecodeError {
    UnknownRegion,
    UnknownRoutingCluster,
}

/// The text of a platform: its variant name.
pub open spec fn region_name(r: Region) -> Seq<char> {
    match r {
        Region::Br1 => "Br1"@,
        Region::Eun1 => "Eun1"@,
        Region::Euw1 => "Euw1"@,
        Region::Jp1 => "Jp1"@,
        Region::Kr => "Kr"@,
        Region::La1 => "La1"@,
        Region::La2 => "La2"@,
        Region::Na1 => "Na1"@,
        Region::Oc1 => "Oc1"@,
        Region::Tr1 => "Tr1"@,
        Region::Ru => "Ru"@,
        Region::Ph2 => "Ph2"@,
        Region::Sg2 => "Sg2"@,
        Region::Th2 => "Th2"@,
        Region::Tw2 => "Tw2"@,
        Region::Vn2 => "Vn2"@,
    }
}

/// The text of a routing cluster: its variant name.
pub open spec fn large_region_name(r: LargeRegion) -> Seq<char> {
    match r {
        LargeRegion::Americas => "Americas"@,
        LargeRegion::Asia => "Asia"@,
        LargeRegion::Europe => "Europe"@,
        LargeRegion::Sea => "Sea"@,
    }
}

/// The platform whose name is exactly `s` (case-sensitive), if any.
pub open spec fn region_named(s: Seq<char>) -> Option<Region> {
    if exists|r: Region| region_name(r) == s {
        Some(choose|r: Region| region_name(r) == s)
    } else {
        None
    }
}

/// The routing cluster whose name is exactly `s` (case-sensitive), if any.
pub open spec fn large_region_named(s: Seq<char>) -> Option<LargeRegion> {
    if exists|r: LargeRegion| large_region_name(r) == s {
        Some(choose|r: LargeRegion| large_region_name(r) == s)
    } else {
        None
    }
}

/// The fixed platform-to-cluster table.
pub open spec fn cluster_of(r: Region) -> LargeRegion {
    match r {
        Region::Br1 | Region::La1 | Region::La2 | Region::Na1 => LargeRegion::Americas,
        Region::Jp1 | Region::Kr | Region::Tw2 | Region::Vn2 => LargeRegion::Asia,
        Region::Eun1 | Region::Euw1 | Region::Tr1 | Region::Ru => LargeRegion::Europe,
        Region::Oc1 | Region::Ph2 | Region::Sg2 | Region::Th2 => LargeRegion::Sea,
    }
}

/// Every platform, in declaration order.
pub open spec fn all_regions() -> Seq<Region> {
    seq![
        Region::Br1, Region::Eun1, Region::Euw1, Region::Jp1, Region::Kr, Region::La1,
        Region::La2, Region::Na1, Region::Oc1, Region::Tr1, Region::Ru, Region::Ph2,
        Region::Sg2, Region::Th2, Region::Tw2, Region::Vn2,
    ]
}

/// Whether two strings hold the same characters.
pub fn same_text(a: &str, b: &str) -> (r: bool)
    ensures
        r == (a@ == b@),
{
    let x = String::from_str(a);
    let y = String::from_str(b);
    x == y
}

/// The first characters of a name and its length: enough to tell the
/// platform names apart.
spec fn name_key(s: Seq<char>) -> (nat, char, char, char) {
    (s.len(), s[0], s[1], if s.len() > 2 { s[2] } else { ' ' })
}

spec fn region_key(r: Region) -> (nat, char, char, char) {
    match r {
        Region::Br1 => (3, 'B', 'r', '1'),
        Region::Eun1 => (4, 'E', 'u', 'n'),
        Region::Euw1 => (4, 'E', 'u', 'w'),
        Region::Jp1 => (3, 'J', 'p', '1'),
        Region::Kr => (2, 'K', 'r', ' '),
        Region::La1 => (3, 'L', 'a', '1'),
        Region::La2 => (3, 'L', 'a', '2'),
        Region::Na1 => (3, 'N', 'a', '1'),
        Region::Oc1 => (3, 'O', 'c', '1'),
        Region::Tr1 => (3, 'T', 'r', '1'),
        Region::Ru => (2, 'R', 'u', ' '),
        Region::Ph2 => (3, 'P', 'h', '2'),
        Region::Sg2 => (3, 'S', 'g', '2'),
        Region::Th2 => (3, 'T', 'h', '2'),
        Region::Tw2 => (3, 'T', 'w', '2'),
        Region::Vn2 => (3, 'V', 'n', '2'),
    }
}

proof fn lemma_region_key(r: Region)
    ensures
        name_key(region_name(r)) == region_key(r),
{
    reveal_strlit("Br1");
    reveal_strlit("Eun1");
    reveal_strlit("Euw1");
    reveal_strlit("Jp1");
    reveal_strlit("Kr");
    reveal_strlit("La1");
    reveal_strlit("La2");
    reveal_strlit("Na1");
    reveal_strlit("Oc1");
    reveal_strlit("Tr1");
    reveal_strlit("Ru");
    reveal_strlit("Ph2");
    reveal_strlit("Sg2");
    reveal_strlit("Th2");
    reveal_strlit("Tw2");
    reveal_strlit("Vn2");
}

/// No two platforms share a name.
pub proof fn lemma_region_names_distinct(a: Region, b: Region)
    ensures
        region_name(a) == region_name(b) ==> a == b,
{
    lemma_region_key(a);
    lemma_region_key(b);
}

proof fn lemma_large_region_key(r: LargeRegion)
    ensures
        (large_region_name(r).len(), large_region_name(r)[0], large_region_name(r)[1])
            == large_region_key(r),
{
    reveal_strlit("Americas");
    reveal_strlit("Asia");
    reveal_strlit("Europe");
    reveal_strlit("Sea");
}

spec fn large_region_key(r: LargeRegion) -> (nat, char, char) {
    match r {
        LargeRegion::Americas => (8, 'A', 'm'),
        LargeRegion::Asia => (4, 'A', 's'),
        LargeRegion::Europe => (6, 'E', 'u'),
        LargeRegion::Sea => (3, 'S', 'e'),
    }
}

/// No two routing clusters share a name.
pub proof fn lemma_large_region_names_distinct(a: LargeRegion, b: LargeRegion)
    ensures
        large_region_name(a) == large_region_name(b) ==> a == b,
{
    lemma_large_region_key(a);
    lemma_large_region_key(b);
}

/// Reading back the name of a platform gives that platform.
pub proof fn lemma_region_round_trip(r: Region)
    ensures
        region_named(region_name(r)) == Some(r),
{
    let x = choose|x: Region| region_name(x) == region_name(r);
    lemma_region_names_distinct(x, r);
}

/// Reading back the name of a routing cluster gives that cluster.
pub proof fn lemma_large_region_round_trip(r: LargeRegion)
    ensures
        large_region_named(large_region_name(r)) == Some(r),
{
    let x = choose|x: LargeRegion| large_region_name(x) == large_region_name(r);
    lemma_large_region_names_distinct(x, r);
}

/// Each routing cluster groups exactly the four platforms of the table, so
/// every platform falls in exactly one of the four clusters.
pub proof fn lemma_cluster_partition(r: Region)
    ensures
        (cluster_of(r) == LargeRegion::Americas) == (r == Region::Br1 || r == Region::La1
            || r == Region::La2 || r == Region::Na1),
        (cluster_of(r) == LargeRegion::Asia) == (r == Region::Jp1 || r == Region::Kr
            || r == Region::Tw2 || r == Region::Vn2),
        (cluster_of(r) == LargeRegion::Europe) == (r == Region::Eun1 || r == Region::Euw1
            || r == Region::Tr1 || r == Region::Ru),
        (cluster_of(r) == LargeRegion::Sea) == (r == Region::Oc1 || r == Region::Ph2
            || r == Region::Sg2 || r == Region::Th2),
{
}

/// Reads a platform name; the match is exact and case-sensitive.
pub fn parse_region(s: &str) -> (r: Result<Region, DecodeError>)
    ensures
        r == (match region_named(s@) {
            Some(x) => Ok(x),
            None => Err(DecodeError::UnknownRegion),
        }),
{
    if same_text(s, "Br1") {
        proof {
            lemma_region_round_trip(Region::Br1);
        }
        Ok(Region::Br1)
    } else if same_text(s, "Eun1") {
        proof {
            lemma_region_round_trip(Region::Eun1);
        }
        Ok(Region::Eun1)
    } else if same_text(s, "Euw1") {
        proof {
            lemma_region_round_trip(Region::Euw1);
        }
        Ok(Region::Euw1)
    } else if same_text(s, "Jp1") {
        proof {
            lemma_region_round_trip(Region::Jp1);
        }
        Ok(Region::Jp1)
    } else if same_text(s, "Kr") {
        proof {
            lemma_region_round_trip(Region::Kr);
        }
        Ok(Region::Kr)
    } else if same_text(s, "La1") {
        proof {
            lemma_region_round_trip(Region::La1);
        }
        Ok(Region::La1)
    } else if same_text(s, "La2") {
        proof {
            lemma_region_round_trip(Region::La2);
        }
        Ok(Region::La2)
    } else if same_text(s, "Na1") {
        proof {
            lemma_region_round_trip(Region::Na1);
        }
        Ok(Region::Na1)
    } else if same_text(s, "Oc1") {
        proof {
            lemma_region_round_trip(Region::Oc1);
        }
        Ok(Region::Oc1)
    } else if same_text(s, "Tr1") {
        proof {
            lemma_region_round_trip(Region::Tr1);
        }
        Ok(Region::Tr1)
    } else if same_text(s, "Ru") {
        proof {
            lemma_region_round_trip(Region::Ru);
        }
        Ok(Region::Ru)
    } else if same_text(s, "Ph2") {
        proof {
            lemma_region_round_trip(Region::Ph2);
        }
        Ok(Region::Ph2)
    } else if same_text(s, "Sg2") {
        proof {
            lemma_region_round_trip(Region::Sg2);
        }
        Ok(Region::Sg2)
    } else if same_text(s, "Th2") {
        proof {
            lemma_region_round_trip(Region::Th2);
        }
        Ok(Region::Th2)
    } else if same_text(s, "Tw2") {
        proof {
            lemma_region_round_trip(Region::Tw2);
        }
        Ok(Region::Tw2)
    } else if same_text(s, "Vn2") {
        proof {
            lemma_region_round_trip(Region::Vn2);
        }
        Ok(Region::Vn2)
    } else {
        Err(DecodeError::UnknownRegion)
    }
}

/// Reads a routing cluster name; the match is exact and case-sensitive.
pub fn parse_routing_cluster(s: &str) -> (r: Result<LargeRegion, DecodeError>)
    ensures
        r == (match large_region_named(s@) {
            Some(x) => Ok(x),
            None => Err(DecodeError::UnknownRoutingCluster),
        }),
{
    if same_text(s, "Americas") {
        proof {
            lemma_large_region_round_trip(LargeRegion::Americas);
        }
        Ok(LargeRegion::Americas)
    } else if same_text(s, "Asia") {
        proof {
            lemma_large_region_round_trip(LargeRegion::Asia);
        }
        Ok(LargeRegion::Asia)
    } else if same_text(s, "Europe") {
        proof {
            lemma_large_region_round_trip(LargeRegion::Europe);
        }
        Ok(LargeRegion::Europe)
    } else if same_text(s, "Sea") {
        proof {
            lemma_large_region_round_trip(LargeRegion::Sea);
        }
        Ok(LargeRegion::Sea)
    } else {
        Err(DecodeError::UnknownRoutingCluster)
    }
}

/// The routing cluster that serves a platform's account and match data.
pub fn routing_cluster_of(r: Region) -> (c: LargeRegion)
    ensures
        c == cluster_of(r),
{
    match r {
        Region::Br1 | Region::La1 | Region::La2 | Region::Na1 => LargeRegion::Americas,
        Region::Jp1 | Region::Kr | Region::Tw2 | Region::Vn2 => LargeRegion::Asia,
        Region::Eun1 | Region::Euw1 | Region::Tr1 | Region::Ru => LargeRegion::Europe,
        Region::Oc1 | Region::Ph2 | Region::Sg2 | Region::Th2 => LargeRegion::Sea,
    }
}

impl LargeRegion {
    /// The cluster's name, as it appears in host names and page paths.
    pub fn to_string(&self) -> (r: String)
        ensures
            r@ == large_region_name(*self),
    {
        let s = match self {
            LargeRegion::Americas => "Americas",
            LargeRegion::Asia => "Asia",
            LargeRegion::Europe => "Europe",
            LargeRegion::Sea => "Sea",
        };
        String::from_str(s)
    }
}

impl Region {
    /// The platform's name, as it appears in host names and page paths.
    pub fn to_string(&self) -> (r: String)
        ensures
            r@ == region_name(*self),
    {
        let s = match self {
            Region::Br1 => "Br1",
            Region::Eun1 => "Eun1",
            Region::Euw1 => "Euw1",
            Region::Jp1 => "Jp1",
            Region::Kr => "Kr",
            Region::La1 => "La1",
            Region::La2 => "La2",
            Region::Na1 => "Na1",
            Region::Oc1 => "Oc1",
            Region::Tr1 => "Tr1",
            Region::Ru => "Ru",
            Region::Ph2 => "Ph2",
            Region::Sg2 => "Sg2",
            Region::Th2 => "Th2",
            Region::Tw2 => "Tw2",
            Region::Vn2 => "Vn2",
        };
        String::from_str(s)
    }

    /// Every platform, in declaration order.
    pub fn all() -> (v: Vec<Region>)
        ensures
            v@ == all_regions(),
    {
        let v = vec![
            Region::Br1, Region::Eun1, Region::Euw1, Region::Jp1, Region::Kr, Region::La1,
            Region::La2, Region::Na1, Region::Oc1, Region::Tr1, Region::Ru, Region::Ph2,
            Region::Sg2, Region::Th2, Region::Tw2, Region::Vn2,
        ];
        assert(v@ == all_regions());
        v
    }
}

/// Every platform is listed by `Region::all`.
pub proof fn lemma_all_regions_complete(r: Region)
    ensures
        all_regions().contains(r),
{
    let i: int = match r {
        Region::Br1 => 0,
        Region::Eun1 => 1,
        Region::Euw1 => 2,
        Region::Jp1 => 3,
        Region::Kr => 4,
        Region::La1 => 5,
        Region::La2 => 6,
        Region::Na1 => 7,
        Region::Oc1 => 8,
        Region::Tr1 => 9,
        Region::Ru => 10,
        Region::Ph2 => 11,
        Region::Sg2 => 12,
        Region::Th2 => 13,
        Region::Tw2 => 14,
        Region::Vn2 => 15,
    };
    assert(all_regions()[i] == r);
}

} // verus!
