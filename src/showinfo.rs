use vstd::prelude::*;

verus! {

/// Tag that starts every line printed by the decoder's frame-info filter.
pub const SHOWINFO_TAG: &'static str = "[Parsed_showinfo_";

/// Marker of the filter's one-off configuration lines, which share the tag.
pub const CONFIG_MARKER: &'static str = "] config";

/// `key: value` tokens; a bracketed value such as `[a b c]` is one token.
pub const TOKEN_PATTERN: &'static str = r"(\w+):\s*(\[.*?\]|\S+)";

pub open spec fn has_prefix(s: Seq<char>, p: Seq<char>) -> bool {
    p.len() <= s.len() && s.subrange(0, p.len() as int) == p
}

pub open spec fn occurs_in(s: Seq<char>, p: Seq<char>) -> bool {
    exists|i: int| 0 <= i && i + p.len() <= s.len() && #[trigger] s.subrange(i, i + p.len()) == p
}

/// A per-frame diagnostic line: tagged, and not a configuration line.
pub open spec fn is_showinfo_line(line: Seq<char>) -> bool {
    has_prefix(line, SHOWINFO_TAG@) && !occurs_in(line, CONFIG_MARKER@)
}

/// The map after inserting `pairs` in order into `m`: a later pair wins.
pub open spec fn insert_all(
    m: Map<Seq<char>, Seq<char>>,
    pairs: Seq<(Seq<char>, Seq<char>)>,
) -> Map<Seq<char>, Seq<char>>
    decreases pairs.len(),
{
    if pairs.len() == 0 {
        m
    } else {
        insert_all(m, pairs.drop_last()).insert(pairs.last().0, pairs.last().1)
    }
}

pub open spec fn pairs_view(s: Seq<(String, String)>) -> Seq<(Seq<char>, Seq<char>)> {
    s.map_values(|p: (String, String)| (p.0@, p.1@))
}

/// For each successive match of `pattern` in `text`, the texts of its first
/// two capture groups; `None` where the pattern does not compile.
pub uninterp spec fn regex_pair_captures(pattern: Seq<char>, text: Seq<char>) -> Option<
    Seq<(Seq<char>, Seq<char>)>,
>;

/// Relies on regex::Regex::new, to compile `pattern`, and on
/// Regex::captures_iter, which yields the successive non-overlapping matches in
/// `text`; of each, the texts of groups 1 and 2 (empty where one took no part).
#[verifier::external_body]
fn pair_captures(pattern: &str, text: &str) -> (r: Option<Vec<(String, String)>>)
    ensures
        r is Some ==> regex_pair_captures(pattern@, text@) == Some(pairs_view(r.unwrap()@)),
        r is None ==> regex_pair_captures(pattern@, text@) is None,
{
    let re = regex::Regex::new(pattern).ok()?;
    let group = |c: &regex::Captures, i: usize| c.get(i).map_or(String::new(), |m| m.as_str().to_string());
    Some(re.captures_iter(text).map(|c| (group(&c, 1), group(&c, 2))).collect())
}

/// Whether `s` and `t` hold the same characters.
pub fn str_equal(s: &str, t: &str) -> (r: bool)
    ensures
        r == (s@ == t@),
{
    let n = s.unicode_len();
    if n != t.unicode_len() {
        return false;
    }
    let mut i: usize = 0;
    while i < n
        invariant
            n == s@.len(),
            n == t@.len(),
            0 <= i <= n,
            forall|j: int| 0 <= j < i ==> s@[j] == t@[j],
        decreases n - i,
    {
        if s.get_char(i) != t.get_char(i) {
            return false;
        }
        i += 1;
    }
    assert(s@ =~= t@);
    true
}

fn matches_at(s: &str, p: &str, at: usize) -> (r: bool)
    requires
        at + p@.len() <= s@.len(),
    ensures
        r == (s@.subrange(at as int, at + p@.len()) == p@),
{
    let n = s.unicode_len();
    let m = p.unicode_len();
    let mut i: usize = 0;
    while i < m
        invariant
            n == s@.len(),
            m == p@.len(),
            at + m <= s@.len(),
            0 <= i <= m,
            forall|j: int| 0 <= j < i ==> s@[at + j] == p@[j],
        decreases m - i,
    {
        if s.get_char(at + i) != p.get_char(i) {
            assert(s@.subrange(at as int, at + m)[i as int] != p@[i as int]);
            return false;
        }
        i += 1;
    }
    assert(s@.subrange(at as int, at + m) =~= p@);
    true
}

/// Whether `s` begins with `p`.
pub fn starts_with(s: &str, p: &str) -> (r: bool)
    ensures
        r == has_prefix(s@, p@),
{
    if p.unicode_len() > s.unicode_len() {
        return false;
    }
    matches_at(s, p, 0)
}

/// Whether `p` occurs somewhere in `s`.
pub fn contains(s: &str, p: &str) -> (r: bool)
    ensures
        r == occurs_in(s@, p@),
{
    let n = s.unicode_len();
    let m = p.unicode_len();
    if m > n {
        return false;
    }
    if m == 0 {
        assert(s@.subrange(0int, 0int + p@.len()) =~= p@);
        return true;
    }
    let mut i: usize = 0;
    while i <= n - m
        invariant
            n == s@.len(),
            m == p@.len(),
            0 < m <= n,
            0 <= i <= n - m + 1,
            forall|j: int| 0 <= j < i ==> #[trigger] s@.subrange(j, j + m) != p@,
        decreases n - m + 1 - i,
    {
        if matches_at(s, p, i) {
            return true;
        }
        i += 1;
    }
    proof { lemma_absent(s@, p@); }
    false
}

proof fn lemma_absent(s: Seq<char>, p: Seq<char>)
    requires
        p.len() <= s.len(),
        forall|j: int| 0 <= j < s.len() - p.len() + 1 ==> #[trigger] s.subrange(j, j + p.len()) != p,
    ensures
        !occurs_in(s, p),
{
}

/// The fields gathered from diagnostic lines: a key seen again takes the
/// value it was seen with last.
pub struct ShowInfoFields {
    entries: Vec<(String, String)>,
}

impl View for ShowInfoFields {
    type V = Map<Seq<char>, Seq<char>>;

    closed spec fn view(&self) -> Map<Seq<char>, Seq<char>> {
        insert_all(Map::empty(), pairs_view(self.entries@))
    }
}

/// Inserting pairs with keys other than `k` leaves the entry of `k` as it was.
proof fn lemma_insert_all_skip(
    m: Map<Seq<char>, Seq<char>>,
    b: Seq<(Seq<char>, Seq<char>)>,
    i: int,
    k: Seq<char>,
)
    requires
        0 <= i <= b.len(),
        forall|j: int| i <= j < b.len() ==> (#[trigger] b[j]).0 != k,
    ensures
        insert_all(m, b).contains_key(k) == insert_all(m, b.take(i)).contains_key(k),
        insert_all(m, b)[k] == insert_all(m, b.take(i))[k],
    decreases b.len() - i,
{
    if i < b.len() {
        let c = b.drop_last();
        assert(b[b.len() - 1].0 != k);
        assert forall|j: int| i <= j < c.len() implies (#[trigger] c[j]).0 != k by {
            assert(c[j] == b[j]);
        }
        lemma_insert_all_skip(m, c, i, k);
        assert(c.take(i) =~= b.take(i));
    } else {
        assert(b.take(i) =~= b);
    }
}

/// Where `k` is among the keys of `b`, its entry after `b` does not depend on
/// the map that `b` was inserted into.
proof fn lemma_insert_all_last_wins(
    m1: Map<Seq<char>, Seq<char>>,
    m2: Map<Seq<char>, Seq<char>>,
    b: Seq<(Seq<char>, Seq<char>)>,
    j: int,
    k: Seq<char>,
)
    requires
        0 <= j < b.len(),
        b[j].0 == k,
    ensures
        insert_all(m1, b).contains_key(k),
        insert_all(m2, b).contains_key(k),
        insert_all(m1, b)[k] == insert_all(m2, b)[k],
    decreases b.len(),
{
    if b.last().0 != k {
        let c = b.drop_last();
        assert(c[j] == b[j]);
        lemma_insert_all_last_wins(m1, m2, c, j, k);
    }
}

/// Of two per-frame lines parsed one after the other into one set of fields,
/// a key that the later line carries ends with the later line's value (its last
/// occurrence there), whatever the fields held before and whatever the earlier
/// line carried.
pub proof fn lemma_later_line_wins(
    fields: Map<Seq<char>, Seq<char>>,
    earlier: Seq<char>,
    later: Seq<char>,
    key: Seq<char>,
)
    requires
        regex_pair_captures(TOKEN_PATTERN@, earlier) is Some,
        regex_pair_captures(TOKEN_PATTERN@, later) is Some,
        exists|j: int|
            0 <= j < regex_pair_captures(TOKEN_PATTERN@, later).unwrap().len()
                && (#[trigger] regex_pair_captures(TOKEN_PATTERN@, later).unwrap()[j]).0 == key,
    ensures
        ({
            let first = regex_pair_captures(TOKEN_PATTERN@, earlier).unwrap();
            let second = regex_pair_captures(TOKEN_PATTERN@, later).unwrap();
            let both = insert_all(insert_all(fields, first), second);
            &&& both.contains_key(key)
            &&& both[key] == insert_all(Map::empty(), second)[key]
        }),
{
    let first = regex_pair_captures(TOKEN_PATTERN@, earlier).unwrap();
    let second = regex_pair_captures(TOKEN_PATTERN@, later).unwrap();
    let j = choose|j: int| 0 <= j < second.len() && (#[trigger] second[j]).0 == key;
    lemma_insert_all_last_wins(insert_all(fields, first), Map::empty(), second, j, key);
}

impl ShowInfoFields {
    /// No fields.
    pub fn new() -> (r: Self)
        ensures
            r@ == Map::<Seq<char>, Seq<char>>::empty(),
    {
        let r = ShowInfoFields { entries: Vec::new() };
        assert(pairs_view(r.entries@) =~= Seq::empty());
        r
    }

    /// Sets `key` to `value`, replacing an earlier value.
    pub fn insert(&mut self, key: String, value: String)
        ensures
            final(self)@ == old(self)@.insert(key@, value@),
    {
        let ghost before = pairs_view(self.entries@);
        self.entries.push((key, value));
        assert(pairs_view(self.entries@).drop_last() =~= before);
    }

    /// The value of `key`, if it was set.
    pub fn get(&self, key: &str) -> (r: Option<&String>)
        ensures
            r is Some <==> self@.contains_key(key@),
            r is Some ==> r.unwrap()@ == self@[key@],
    {
        let ghost b = pairs_view(self.entries@);
        let mut i: usize = self.entries.len();
        while i > 0
            invariant
                b == pairs_view(self.entries@),
                0 <= i <= b.len(),
                forall|j: int| i <= j < b.len() ==> (#[trigger] b[j]).0 != key@,
            decreases i,
        {
            let e = &self.entries[i - 1];
            if str_equal(e.0.as_str(), key) {
                proof {
                    assert(b[i - 1] == (e.0@, e.1@));
                    lemma_insert_all_skip(Map::empty(), b, i as int, key@);
                    assert(b.take(i as int).drop_last() =~= b.take(i - 1));
                }
                return Some(&e.1);
            }
            assert(b[i - 1] == (e.0@, e.1@));
            i -= 1;
        }
        proof {
            lemma_insert_all_skip(Map::empty(), b, 0, key@);
            assert(b.take(0) =~= Seq::empty());
        }
        None
    }

    /// Inserts the pairs in order.
    fn insert_pairs(&mut self, pairs: Vec<(String, String)>)
        ensures
            final(self)@ == insert_all(old(self)@, pairs_view(pairs@)),
    {
        let ghost start = self@;
        let ghost b = pairs_view(pairs@);
        let n = pairs.len();
        let mut rest = pairs;
        let mut i: usize = 0;
        // Consume from the front: keep the remaining pairs in order.
        while i < n
            invariant
                b == pairs_view(pairs@),
                n == b.len(),
                0 <= i <= b.len(),
                pairs_view(rest@) == b.skip(i as int),
                rest@.len() == n - i,
                self@ == insert_all(start, b.take(i as int)),
            decreases b.len() - i,
        {
            let ghost rv = pairs_view(rest@);
            let ghost re = rest@;
            let (k, v) = rest.remove(0);
            proof {
                assert(re[0] == (k, v));
                assert(rv[0] == (k@, v@));
                assert(pairs_view(rest@) =~= rv.skip(1));
                assert(b.skip(i as int).skip(1) =~= b.skip(i + 1));
            }
            self.insert(k, v);
            proof {
                assert(b.take(i + 1).drop_last() =~= b.take(i as int));
                assert(b[i as int] == rv[0]);
            }
            i += 1;
        }
        assert(b.take(b.len() as int) =~= b);
    }
}

/// Reads one decoder diagnostic line into `props`. A per-frame line gives
/// `Some(())` and each of its `key: value` tokens is inserted in order;
/// configuration lines and any other text give `None` and leave `props` alone.
pub fn parse_showinfo(line: &str, props: &mut ShowInfoFields) -> (r: Option<()>)
    ensures
        r is Some <==> is_showinfo_line(line@) && regex_pair_captures(TOKEN_PATTERN@, line@) is Some,
        r is Some ==> final(props)@ == insert_all(
            old(props)@,
            regex_pair_captures(TOKEN_PATTERN@, line@).unwrap(),
        ),
        r is None ==> final(props)@ == old(props)@,
{
    if !starts_with(line, SHOWINFO_TAG) {
        return None;
    }
    if contains(line, CONFIG_MARKER) {
        return None;
    }
    match pair_captures(TOKEN_PATTERN, line) {
        Some(pairs) => {
            props.insert_pairs(pairs);
            Some(())
        },
        None => None,
    }
}

} // verus!
