//! Resolving the operator's typed champion name against the champion
//! catalog: surrounding whitespace, spaces and apostrophes are ignored, and
//! names are compared in lower case.
use vstd::prelude::*;
use vstd::string::*;
use crate::text::same_text;

verus! {

/// What `str::to_lowercase` returns for `s`.
pub uninterp spec fn lower_of(s: Seq<char>) -> Seq<char>;

/// The characters with the Unicode White_Space property.
pub open spec fn is_white_space(c: char) -> bool {
    let u = c as u32;
    (0x9 <= u <= 0xd) || u == 0x20 || u == 0x85 || u == 0xa0 || u == 0x1680 || (0x2000 <= u
        <= 0x200a) || u == 0x2028 || u == 0x2029 || u == 0x202f || u == 0x205f || u == 0x3000
}

fn white_space(c: char) -> (r: bool)
    ensures
        r == is_white_space(c),
{
    let u = c as u32;
    (0x9 <= u && u <= 0xd) || u == 0x20 || u == 0x85 || u == 0xa0 || u == 0x1680 || (0x2000 <= u
        && u <= 0x200a) || u == 0x2028 || u == 0x2029 || u == 0x202f || u == 0x205f || u == 0x3000
}

/// Position of the first character of `s` at or after `i` that is not white
/// space (the length where there is none).
pub open spec fn first_solid_from(s: Seq<char>, i: int) -> int
    decreases s.len() - i,
{
    if i < 0 || i >= s.len() {
        s.len() as int
    } else if is_white_space(s[i]) {
        first_solid_from(s, i + 1)
    } else {
        i
    }
}

/// End of the part of `s[..j]` that remains once trailing white space is cut.
pub open spec fn solid_end_before(s: Seq<char>, j: int) -> int
    decreases j,
{
    if j <= 0 || j > s.len() {
        0
    } else if is_white_space(s[j - 1]) {
        solid_end_before(s, j - 1)
    } else {
        j
    }
}

/// `s` without leading and trailing white space.
pub open spec fn trim_seq(s: Seq<char>) -> Seq<char> {
    let a = first_solid_from(s, 0);
    if a >= s.len() {
        Seq::empty()
    } else {
        s.subrange(a, solid_end_before(s, s.len() as int))
    }
}

/// Removes leading and trailing white space.
pub fn trim_text(s: &str) -> (r: &str)
    ensures
        r@ == trim_seq(s@),
{
    let n = s.unicode_len();
    let mut a: usize = 0;
    while a < n && white_space(s.get_char(a))
        invariant
            n == s@.len(),
            a <= n,
            first_solid_from(s@, 0) == first_solid_from(s@, a as int),
        decreases n - a,
    {
        a = a + 1;
    }
    if a == n {
        return s.substring_char(0, 0);
    }
    let mut e: usize = n;
    while e > a + 1 && white_space(s.get_char(e - 1))
        invariant
            n == s@.len(),
            a < e <= n,
            !is_white_space(s@[a as int]),
            first_solid_from(s@, 0) == a,
            solid_end_before(s@, n as int) == solid_end_before(s@, e as int),
        decreases e,
    {
        e = e - 1;
    }
    assert(solid_end_before(s@, e as int) == e as int);
    s.substring_char(a, e)
}

/// Relies on `str::to_lowercase`: the lower-case form, a function of the
/// characters alone; an empty string stays empty.
#[verifier::external_body]
fn lowercase(s: &str) -> (r: String)
    ensures
        r@ == lower_of(s@),
        s@.len() == 0 ==> r@.len() == 0,
{
    s.to_lowercase()
}

/// One entry of the champion catalog.
#[derive(Clone, Debug)]
pub struct ChampionEntry {
    pub id: u32,
    pub name: String,
}

/// `true` for the characters a typed name may carry that catalog names
/// are matched without.
pub open spec fn ignored_char(c: char) -> bool {
    c == ' ' || c == '\''
}

/// `s` without spaces and apostrophes.
pub open spec fn without_marks(s: Seq<char>) -> Seq<char>
    decreases s.len(),
{
    if s.len() == 0 {
        Seq::empty()
    } else if ignored_char(s.last()) {
        without_marks(s.drop_last())
    } else {
        without_marks(s.drop_last()).push(s.last())
    }
}

/// The key a typed name is matched by.
pub open spec fn query_key(text: Seq<char>) -> Seq<char> {
    lower_of(without_marks(trim_seq(text)))
}

/// Removes spaces and apostrophes.
pub fn strip_marks(s: &str) -> (r: String)
    ensures
        r@ == without_marks(s@),
{
    let n = s.unicode_len();
    let mut r = String::new();
    let mut i: usize = 0;
    while i < n
        invariant
            n == s@.len(),
            i <= n,
            r@ == without_marks(s@.take(i as int)),
        decreases n - i,
    {
        let c = s.get_char(i);
        proof {
            assert(s@.take(i as int + 1).drop_last() =~= s@.take(i as int));
            assert(s@.take(i as int + 1).last() == c);
        }
        if !(c == ' ' || c == '\'') {
            let one = s.substring_char(i, i + 1);
            proof {
                assert(one@ =~= seq![c]);
            }
            r.append(one);
            proof {
                assert(r@ =~= without_marks(s@.take(i as int)).push(c));
            }
        }
        i = i + 1;
    }
    proof {
        assert(s@.take(n as int) =~= s@);
    }
    r
}

/// Position of the first entry of `names` equal to `key`, from `i` on.
pub open spec fn first_equal_from(names: Seq<String>, key: Seq<char>, i: int) -> Option<usize>
    decreases names.len() - i,
{
    if i < 0 || i >= names.len() {
        None
    } else if names[i]@ == key {
        Some(i as usize)
    } else {
        first_equal_from(names, key, i + 1)
    }
}

/// Position of the first of `lowered` (the catalog's names in lower case, in
/// catalog order) that equals `key`.
pub fn match_key(lowered: &Vec<String>, key: &str) -> (r: Option<usize>)
    ensures
        r == first_equal_from(lowered@, key@, 0),
        r is Some ==> r->0 < lowered@.len() && lowered@[r->0 as int]@ == key@,
{
    let mut i: usize = 0;
    while i < lowered.len()
        invariant
            i <= lowered@.len(),
            first_equal_from(lowered@, key@, 0) == first_equal_from(lowered@, key@, i as int),
        decreases lowered@.len() - i,
    {
        if same_text(lowered[i].as_str(), key) {
            return Some(i);
        }
        i = i + 1;
    }
    None
}

/// Result of resolving a typed name.
#[derive(Clone, Copy, PartialEq, Eq, Structural, Debug)]
pub enum ChampionLookup {
    /// Nothing typed: an explicit skip.
    Skip,
    /// Position of the matching catalog entry.
    Found(usize),
    /// No champion has that name.
    NotFound,
}

/// Position of the first entry whose lower-case name is `key`, from `i` on.
pub open spec fn first_named_from(cat: Seq<ChampionEntry>, key: Seq<char>, i: int) -> Option<usize>
    decreases cat.len() - i,
{
    if i < 0 || i >= cat.len() {
        None
    } else if lower_of(cat[i].name@) == key {
        Some(i as usize)
    } else {
        first_named_from(cat, key, i + 1)
    }
}

/// Resolves the typed name `text` against `catalog`. A found entry always
/// has a non-empty name, so it is never taken for a skip.
pub fn lookup_champion(catalog: &Vec<ChampionEntry>, text: &str) -> (r: ChampionLookup)
    ensures
        r matches ChampionLookup::Found(i) ==> i < catalog@.len() && catalog@[i as int].name@.len()
            != 0,
        r is Skip <==> query_key(text@).len() == 0,
        query_key(text@).len() != 0 ==> match first_named_from(catalog@, query_key(text@), 0) {
            Some(i) => r == ChampionLookup::Found(i),
            None => r == ChampionLookup::NotFound,
        },
{
    let stripped = strip_marks(trim_text(text));
    let key = lowercase(stripped.as_str());
    if key.as_str().unicode_len() == 0 {
        return ChampionLookup::Skip;
    }
    let mut lowered: Vec<String> = Vec::new();
    let mut i: usize = 0;
    while i < catalog.len()
        invariant
            i <= catalog@.len(),
            lowered@.len() == i,
            forall|k: int| 0 <= k < i ==> #[trigger] lowered@[k]@ == lower_of(catalog@[k].name@),
            forall|k: int|
                0 <= k < i && catalog@[k].name@.len() == 0 ==> (#[trigger] lowered@[k])@.len() == 0,
        decreases catalog@.len() - i,
    {
        lowered.push(lowercase(catalog[i].name.as_str()));
        i = i + 1;
    }
    let found = match_key(&lowered, key.as_str());
    proof {
        lemma_first_equal_is_first_named(lowered@, catalog@, key@, 0);
    }
    match found {
        Some(i) => ChampionLookup::Found(i),
        None => ChampionLookup::NotFound,
    }
}

proof fn lemma_first_equal_is_first_named(
    lowered: Seq<String>,
    cat: Seq<ChampionEntry>,
    key: Seq<char>,
    i: int,
)
    requires
        lowered.len() == cat.len(),
        forall|k: int| 0 <= k < cat.len() ==> #[trigger] lowered[k]@ == lower_of(cat[k].name@),
        0 <= i,
    ensures
        first_equal_from(lowered, key, i) == first_named_from(cat, key, i),
    decreases cat.len() - i,
{
    if i < cat.len() {
        lemma_first_equal_is_first_named(lowered, cat, key, i + 1);
    }
}

} // verus!
