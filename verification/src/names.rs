//! Translation of field names from the GraphQL naming style (lower camel)
//! to the host's attribute style (lower snake).
//!
//! Every ASCII uppercase letter is lowercased, and an underscore is inserted
//! before it unless it is the first character; all other characters pass
//! through unchanged.

use vstd::prelude::*;
use vstd::string::*;

verus! {

/// Whether `c` is an ASCII uppercase letter.
pub open spec fn is_ascii_upper(c: char) -> bool {
    65 <= c as u32 && c as u32 <= 90
}

/// The lowercase form of an ASCII uppercase letter.
pub open spec fn to_ascii_lower(c: char) -> char {
    (((c as u32 + 32) as u8) as char)
}

/// What the character at position `i` of `s` contributes to the snake-case
/// form: an uppercase letter becomes its lowercase form, preceded by an
/// underscore unless it starts the name; everything else passes through.
pub open spec fn snake_step(s: Seq<char>, i: int) -> Seq<char> {
    if is_ascii_upper(s[i]) {
        if i > 0 {
            seq!['_', to_ascii_lower(s[i])]
        } else {
            seq![to_ascii_lower(s[i])]
        }
    } else {
        seq![s[i]]
    }
}

/// The snake-case form of the first `n` characters of `s`.
pub open spec fn snake_prefix(s: Seq<char>, n: int) -> Seq<char>
    decreases n,
{
    if n <= 0 {
        Seq::empty()
    } else {
        snake_prefix(s, n - 1) + snake_step(s, n - 1)
    }
}

/// The snake-case form of a field name.
pub open spec fn snake_of(s: Seq<char>) -> Seq<char> {
    snake_prefix(s, s.len() as int)
}

/// Relies on `Iterator::collect` for `String`: collecting an iterator of
/// `char`s yields the string holding exactly those characters in order.
#[verifier::external_body]
fn string_from_chars(v: Vec<char>) -> (r: String)
    ensures
        r@ == v@,
{
    v.into_iter().collect()
}

/// Converts a field name from lower-camel style to lower-snake style.
pub fn camel_to_snake(s: &str) -> (r: String)
    ensures
        r@ == snake_of(s@),
{
    let n: usize = s.unicode_len();
    let mut out: Vec<char> = Vec::new();
    let mut i: usize = 0;
    while i < n
        invariant
            n == s@.len(),
            i <= n,
            out@ == snake_prefix(s@, i as int),
        decreases n - i,
    {
        let c = s.get_char(i);
        let u: u32 = c as u32;
        if 65 <= u && u <= 90 {
            if i > 0 {
                out.push('_');
            }
            out.push((u + 32) as u8 as char);
        } else {
            out.push(c);
        }
        proof {
            assert(out@ =~= snake_prefix(s@, i + 1));
        }
        i += 1;
    }
    string_from_chars(out)
}

proof fn lemma_snake_prefix_identity(s: Seq<char>, n: int)
    requires
        0 <= n <= s.len(),
        forall|i: int| 0 <= i < s.len() ==> !is_ascii_upper(s[i]),
    ensures
        snake_prefix(s, n) == s.subrange(0, n),
    decreases n,
{
    if n > 0 {
        lemma_snake_prefix_identity(s, n - 1);
        assert(snake_prefix(s, n) =~= s.subrange(0, n));
    } else {
        assert(snake_prefix(s, n) =~= s.subrange(0, n));
    }
}

/// The translator leaves a name that is already in snake case — one with no
/// ASCII uppercase letters — unchanged.
pub proof fn lemma_snake_identity_on_snake_case(s: Seq<char>)
    requires
        forall|i: int| 0 <= i < s.len() ==> !is_ascii_upper(s[i]),
    ensures
        snake_of(s) == s,
{
    lemma_snake_prefix_identity(s, s.len() as int);
    assert(s.subrange(0, s.len() as int) =~= s);
}

proof fn lemma_snake_prefix_no_upper(s: Seq<char>, n: int)
    requires
        0 <= n <= s.len(),
    ensures
        forall|k: int|
            0 <= k < snake_prefix(s, n).len() ==> !is_ascii_upper(#[trigger] snake_prefix(s, n)[k]),
    decreases n,
{
    if n > 0 {
        lemma_snake_prefix_no_upper(s, n - 1);
        let prev = snake_prefix(s, n - 1);
        let step = snake_step(s, n - 1);
        assert forall|k: int| 0 <= k < snake_prefix(s, n).len() implies !is_ascii_upper(
            #[trigger] snake_prefix(s, n)[k],
        ) by {
            if k >= prev.len() {
                assert(snake_prefix(s, n)[k] == step[k - prev.len()]);
                if is_ascii_upper(s[n - 1]) {
                    assert(to_ascii_lower(s[n - 1]) as u32 == s[n - 1] as u32 + 32);
                }
            }
        }
    }
}

/// The translator is idempotent: its output holds no ASCII uppercase letter,
/// so translating a second time changes nothing.
pub proof fn lemma_snake_idempotent(s: Seq<char>)
    ensures
        snake_of(snake_of(s)) == snake_of(s),
{
    lemma_snake_prefix_no_upper(s, s.len() as int);
    lemma_snake_identity_on_snake_case(snake_of(s));
}

} // verus!
