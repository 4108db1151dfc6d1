//! Slugs: normalized identifier text derived from free text.
//!
//! A slug keeps the ASCII letters (lowered) and digits of the text; every
//! run of other characters becomes a single hyphen, and no hyphen stands at
//! either end ("Brand Name!" becomes "brand-name").
use vstd::prelude::*;
use vstd::string::*;

verus! {

/// An ASCII letter or digit.
pub open spec fn is_alnum(c: char) -> bool {
    ('a' <= c && c <= 'z') || ('A' <= c && c <= 'Z') || ('0' <= c && c <= '9')
}

/// An ASCII upper-case letter made lower-case; any other character as it is.
pub open spec fn lower(c: char) -> char {
    if 'A' <= c && c <= 'Z' {
        ((c as u32) + 32) as char
    } else {
        c
    }
}

/// A character that a slug may hold: a lower-case ASCII letter, a digit or
/// a hyphen.
pub open spec fn is_slug_char(c: char) -> bool {
    ('a' <= c && c <= 'z') || ('0' <= c && c <= '9') || c == '-'
}

/// Text in slug form: only slug characters, no hyphen at either end and no
/// two hyphens in a row.
pub open spec fn is_slug(t: Seq<char>) -> bool {
    &&& forall|i: int| 0 <= i < t.len() ==> is_slug_char(#[trigger] t[i])
    &&& t.len() > 0 ==> t[0] != '-' && t.last() != '-'
    &&& forall|i: int| 0 <= i < t.len() - 1 ==> !(#[trigger] t[i] == '-' && t[i + 1] == '-')
}

/// The slug built from the characters of `s` read so far, and whether a
/// separator has been seen since its last letter or digit.
pub open spec fn slug_state(s: Seq<char>) -> (Seq<char>, bool)
    decreases s.len(),
{
    if s.len() == 0 {
        (seq![], false)
    } else {
        let prev = slug_state(s.drop_last());
        let c = s.last();
        if is_alnum(c) {
            if prev.1 && prev.0.len() > 0 {
                (prev.0.push('-').push(lower(c)), false)
            } else {
                (prev.0.push(lower(c)), false)
            }
        } else {
            (prev.0, true)
        }
    }
}

/// The slug of a text.
pub open spec fn slugify(s: Seq<char>) -> Seq<char> {
    slug_state(s).0
}

/// The slug of two texts joined: `slugify(a) + "-" + slugify(b)`, or just
/// the non-empty one of the two slugs where the other is empty (the slug of
/// `a + "-" + b`).
pub open spec fn slug_of(a: Seq<char>, b: Seq<char>) -> Seq<char> {
    let x = slugify(a);
    let y = slugify(b);
    if x.len() == 0 {
        y
    } else if y.len() == 0 {
        x
    } else {
        x + seq!['-'] + y
    }
}

/// Relies on `String::push`: appends one character.
#[verifier::external_body]
fn push_char(s: &mut String, c: char)
    ensures
        final(s)@ == old(s)@.push(c),
{
    s.push(c)
}

fn is_alnum_char(c: char) -> (r: bool)
    ensures
        r == is_alnum(c),
{
    ('a' <= c && c <= 'z') || ('A' <= c && c <= 'Z') || ('0' <= c && c <= '9')
}

fn lower_char(c: char) -> (r: char)
    ensures
        r == lower(c),
{
    if 'A' <= c && c <= 'Z' {
        ((c as u8) + 32) as char
    } else {
        c
    }
}

/// The slug of `s`, appended to `out`.
fn push_slug(out: &mut String, s: &str)
    ensures
        final(out)@ == old(out)@ + slugify(s@),
{
    let n = s.unicode_len();
    let ghost start = out@;
    let mut started = false;
    let mut pending = false;
    let mut i: usize = 0;
    while i < n
        invariant
            n == s@.len(),
            i <= n,
            out@ == start + slug_state(s@.subrange(0, i as int)).0,
            pending == slug_state(s@.subrange(0, i as int)).1,
            started == (slug_state(s@.subrange(0, i as int)).0.len() > 0),
        decreases n - i,
    {
        let c = s.get_char(i);
        proof {
            assert(s@.subrange(0, i + 1).drop_last() =~= s@.subrange(0, i as int));
        }
        if is_alnum_char(c) {
            if pending && started {
                push_char(out, '-');
            }
            push_char(out, lower_char(c));
            started = true;
            pending = false;
        } else {
            pending = true;
        }
        i = i + 1;
        proof {
            assert(out@ =~= start + slug_state(s@.subrange(0, i as int)).0);
        }
    }
    proof {
        assert(s@.subrange(0, n as int) =~= s@);
    }
}

proof fn lemma_lower_is_slug_char(c: char)
    requires
        is_alnum(c),
    ensures
        is_slug_char(lower(c)),
        lower(c) != '-',
        is_alnum(lower(c)),
        lower(lower(c)) == lower(c),
{
}

/// The slug built so far is always in slug form.
proof fn lemma_slug_state_form(s: Seq<char>)
    ensures
        is_slug(slug_state(s).0),
    decreases s.len(),
{
    if s.len() > 0 {
        let prev = slug_state(s.drop_last());
        lemma_slug_state_form(s.drop_last());
        let c = s.last();
        if is_alnum(c) {
            lemma_lower_is_slug_char(c);
            let t = slug_state(s).0;
            if prev.1 && prev.0.len() > 0 {
                assert(t == prev.0.push('-').push(lower(c)));
                assert forall|i: int| 0 <= i < t.len() - 1 implies !(#[trigger] t[i] == '-' && t[i
                    + 1] == '-') by {
                    if i < prev.0.len() - 1 {
                        assert(t[i] == prev.0[i] && t[i + 1] == prev.0[i + 1]);
                    } else if i == prev.0.len() - 1 {
                        assert(t[i] == prev.0.last());
                    }
                }
                assert forall|i: int| 0 <= i < t.len() implies is_slug_char(#[trigger] t[i]) by {
                    if i < prev.0.len() {
                        assert(t[i] == prev.0[i]);
                    }
                }
            } else {
                assert(t == prev.0.push(lower(c)));
                assert forall|i: int| 0 <= i < t.len() - 1 implies !(#[trigger] t[i] == '-' && t[i
                    + 1] == '-') by {
                    if i < prev.0.len() - 1 {
                        assert(t[i] == prev.0[i] && t[i + 1] == prev.0[i + 1]);
                    }
                }
                assert forall|i: int| 0 <= i < t.len() implies is_slug_char(#[trigger] t[i]) by {
                    if i < prev.0.len() {
                        assert(t[i] == prev.0[i]);
                    }
                }
            }
        }
    }
}

/// A text already in slug form is read back unchanged: for each prefix of
/// it, the state holds the prefix less a trailing hyphen, which is pending.
proof fn lemma_slug_state_of_slug(t: Seq<char>, k: int)
    requires
        is_slug(t),
        0 <= k <= t.len(),
    ensures
        k > 0 && t[k - 1] == '-' ==> slug_state(t.subrange(0, k)) == (t.subrange(0, k - 1), true),
        !(k > 0 && t[k - 1] == '-') ==> slug_state(t.subrange(0, k)) == (t.subrange(0, k), false),
    decreases k,
{
    if k > 0 {
        lemma_slug_state_of_slug(t, k - 1);
        let p = t.subrange(0, k);
        assert(p.drop_last() =~= t.subrange(0, k - 1));
        let c = t[k - 1];
        assert(is_slug_char(c));
        if c == '-' {
            assert(!is_alnum(c));
            if k - 1 > 0 {
                assert(!(t[k - 2] == '-' && t[k - 1] == '-'));
            }
        } else {
            assert(is_alnum(c));
            assert(lower(c) == c);
            if k - 1 > 0 && t[k - 2] == '-' {
                assert(k - 2 > 0) by {
                    assert(t[0] != '-');
                }
                assert(t.subrange(0, k - 2).push('-').push(c) =~= p);
            } else {
                assert(t.subrange(0, k - 1).push(c) =~= p);
            }
        }
    }
}

/// Slugs in slug form are their own slug.
pub proof fn lemma_slug_fixed_point(t: Seq<char>)
    requires
        is_slug(t),
    ensures
        slugify(t) == t,
{
    lemma_slug_state_of_slug(t, t.len() as int);
    assert(t.subrange(0, t.len() as int) =~= t);
}

/// Every slug is in slug form.
pub proof fn lemma_slugify_form(s: Seq<char>)
    ensures
        is_slug(slugify(s)),
{
    lemma_slug_state_form(s);
}

/// Normalizing a slug again changes nothing:
/// `slugify(slugify(x)) == slugify(x)`.
pub proof fn lemma_slugify_idempotent(s: Seq<char>)
    ensures
        slugify(slugify(s)) == slugify(s),
{
    lemma_slug_state_form(s);
    lemma_slug_fixed_point(slugify(s));
}

/// Two non-empty slugs joined by a hyphen are a slug.
pub proof fn lemma_join_slugs(x: Seq<char>, y: Seq<char>)
    requires
        is_slug(x),
        is_slug(y),
        x.len() > 0,
        y.len() > 0,
    ensures
        is_slug(x + seq!['-'] + y),
{
    let t = x + seq!['-'] + y;
    let n = x.len() as int;
    assert forall|i: int| 0 <= i < t.len() implies is_slug_char(#[trigger] t[i]) by {
        if i < n {
            assert(t[i] == x[i]);
        } else if i > n {
            assert(t[i] == y[i - n - 1]);
        }
    }
    assert forall|i: int| 0 <= i < t.len() - 1 implies !(#[trigger] t[i] == '-' && t[i + 1]
        == '-') by {
        if i < n - 1 {
            assert(t[i] == x[i] && t[i + 1] == x[i + 1]);
        } else if i == n - 1 {
            assert(t[i] == x.last());
        } else if i == n {
            assert(t[i + 1] == y[0]);
        } else {
            assert(t[i] == y[i - n - 1] && t[i + 1] == y[i - n]);
        }
    }
    assert(t[0] == x[0]);
    assert(t.last() == y.last());
}

/// The joined slug of two texts is a slug.
pub proof fn lemma_slug_of_form(a: Seq<char>, b: Seq<char>)
    ensures
        is_slug(slug_of(a, b)),
{
    lemma_slug_state_form(a);
    lemma_slug_state_form(b);
    if slugify(a).len() > 0 && slugify(b).len() > 0 {
        lemma_join_slugs(slugify(a), slugify(b));
    }
}

/// A normalized identifier.
#[derive(Debug, Clone)]
pub struct Slug {
    value: String,
}

impl View for Slug {
    type V = Seq<char>;

    closed spec fn view(&self) -> Seq<char> {
        self.value@
    }
}

impl Slug {
    /// The slug of `value`.
    pub fn new(value: &str) -> (r: Slug)
        ensures
            r@ == slugify(value@),
    {
        let mut out = String::new();
        push_slug(&mut out, value);
        proof {
            assert(out@ =~= slugify(value@));
        }
        Slug { value: out }
    }

    /// The slug of two texts, joined by a hyphen:
    /// `slugify(first) + "-" + slugify(second)`; where one of the two slugs
    /// is empty, the other one alone.
    pub fn of(first: &str, second: &str) -> (r: Slug)
        ensures
            r@ == slug_of(first@, second@),
            is_slug(r@),
    {
        proof {
            lemma_slug_of_form(first@, second@);
        }
        let mut head = String::new();
        push_slug(&mut head, first);
        let mut tail = String::new();
        push_slug(&mut tail, second);
        proof {
            assert(head@ =~= slugify(first@));
            assert(tail@ =~= slugify(second@));
        }
        if head.as_str().unicode_len() == 0 {
            Slug { value: tail }
        } else if tail.as_str().unicode_len() == 0 {
            Slug { value: head }
        } else {
            push_char(&mut head, '-');
            head.append(tail.as_str());
            proof {
                assert(head@ =~= slug_of(first@, second@));
            }
            Slug { value: head }
        }
    }

    /// The slug text.
    pub fn as_str(&self) -> (r: &str)
        ensures
            r@ == self@,
    {
        self.value.as_str()
    }

    /// The slug text, as an owned string.
    pub fn to_string(&self) -> (r: String)
        ensures
            r@ == self@,
    {
        self.value.clone()
    }
}

impl PartialEq for Slug {
    fn eq(&self, other: &Slug) -> (r: bool) {
        self.value == other.value
    }
}

impl vstd::std_specs::cmp::PartialEqSpecImpl for Slug {
    open spec fn obeys_eq_spec() -> bool {
        true
    }

    open spec fn eq_spec(&self, other: &Slug) -> bool {
        self@ == other@
    }
}

} // verus!
