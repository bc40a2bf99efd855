use vstd::prelude::*;

verus! {

/// The position of the first `#` in `s` at or after `k`, or `s.len()` when
/// there is none.
pub open spec fn hash_from(s: Seq<char>, k: int) -> int
    decreases s.len() - k,
{
    if k < 0 || k >= s.len() {
        s.len() as int
    } else if s[k] == '#' {
        k
    } else {
        hash_from(s, k + 1)
    }
}

proof fn lemma_hash_from_bounds(s: Seq<char>, k: int)
    requires
        0 <= k <= s.len(),
    ensures
        k <= hash_from(s, k) <= s.len(),
        hash_from(s, k) < s.len() ==> s[hash_from(s, k)] == '#',
    decreases s.len() - k,
{
    if k < s.len() && s[k] != '#' {
        lemma_hash_from_bounds(s, k + 1);
    }
}

/// The game name of a Riot ID `name#tag`: what precedes the first `#`.
pub open spec fn game_name_of(s: Seq<char>) -> Seq<char> {
    s.subrange(0, hash_from(s, 0))
}

/// The tag line of a Riot ID: what follows the first `#`, up to a second one.
pub open spec fn tag_line_of(s: Seq<char>) -> Seq<char> {
    s.subrange(hash_from(s, 0) + 1, hash_from(s, hash_from(s, 0) + 1))
}

fn find_hash(s: &str, len: usize, from: usize) -> (r: usize)
    requires
        len == s@.len(),
        from <= len,
    ensures
        r == hash_from(s@, from as int),
{
    let mut k = from;
    while k < len
        invariant
            from <= k <= len,
            len == s@.len(),
            hash_from(s@, from as int) == hash_from(s@, k as int),
        decreases len - k,
    {
        if s.get_char(k) == '#' {
            return k;
        }
        k = k + 1;
    }
    k
}

/// Splits a Riot ID written `name#tag` into its game name and tag line;
/// `None` when it holds no `#`.
pub fn split_riot_id(full_name: &str) -> (r: Option<(String, String)>)
    ensures
        r is None <==> hash_from(full_name@, 0) == full_name@.len(),
        r matches Some(p) ==> p.0@ == game_name_of(full_name@) && p.1@ == tag_line_of(full_name@),
{
    let len = full_name.unicode_len();
    let h = find_hash(full_name, len, 0);
    proof {
        lemma_hash_from_bounds(full_name@, 0);
    }
    if h == len {
        None
    } else {
        let e = find_hash(full_name, len, h + 1);
        proof {
            lemma_hash_from_bounds(full_name@, h + 1);
        }
        let name = String::from_str(full_name.substring_char(0, h));
        let tag = String::from_str(full_name.substring_char(h + 1, e));
        Some((name, tag))
    }
}

/// The path of a player's page.
pub open spec fn user_path_of(region: Seq<char>, name: Seq<char>, tag: Seq<char>) -> Seq<char> {
    "/user/"@ + region + "/"@ + name + "/"@ + tag
}

/// Where a lookup form with this region and Riot ID leads: the player's
/// page; `None` when the Riot ID holds no `#`.
pub fn lookup_redirect(region: &str, full_name: &str) -> (r: Option<String>)
    ensures
        r is None <==> hash_from(full_name@, 0) == full_name@.len(),
        r matches Some(p) ==> p@ == user_path_of(
            region@,
            game_name_of(full_name@),
            tag_line_of(full_name@),
        ),
{
    match split_riot_id(full_name) {
        Some((name, tag)) => {
            let mut p = String::from_str("/user/");
            p.append(region);
            p.append("/");
            p.append(name.as_str());
            p.append("/");
            p.append(tag.as_str());
            Some(p)
        },
        None => None,
    }
}

} // verus!
