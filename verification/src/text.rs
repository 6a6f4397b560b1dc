//! Entity decoding for extracted text: the five predefined markup entities
//! (`&amp;` `&lt;` `&gt;` `&quot;` `&apos;`) are replaced by the characters
//! they name; any other character, including an `&` that opens no such
//! entity, is kept as it stands.

use vstd::prelude::*;
use vstd::string::*;

verus! {

/// The decoded form of `s`: each predefined entity becomes its character,
/// everything else is copied through.
pub open spec fn decode_entities_spec(s: Seq<char>) -> Seq<char>
    decreases s.len(),
{
    if s.len() == 0 {
        Seq::empty()
    } else if s.len() >= 5 && s[0] == '&' && s[1] == 'a' && s[2] == 'm' && s[3] == 'p' && s[4]
        == ';' {
        seq!['&'] + decode_entities_spec(s.skip(5))
    } else if s.len() >= 4 && s[0] == '&' && s[1] == 'l' && s[2] == 't' && s[3] == ';' {
        seq!['<'] + decode_entities_spec(s.skip(4))
    } else if s.len() >= 4 && s[0] == '&' && s[1] == 'g' && s[2] == 't' && s[3] == ';' {
        seq!['>'] + decode_entities_spec(s.skip(4))
    } else if s.len() >= 6 && s[0] == '&' && s[1] == 'q' && s[2] == 'u' && s[3] == 'o' && s[4]
        == 't' && s[5] == ';' {
        seq!['"'] + decode_entities_spec(s.skip(6))
    } else if s.len() >= 6 && s[0] == '&' && s[1] == 'a' && s[2] == 'p' && s[3] == 'o' && s[4]
        == 's' && s[5] == ';' {
        seq!['\''] + decode_entities_spec(s.skip(6))
    } else {
        seq![s[0]] + decode_entities_spec(s.skip(1))
    }
}

/// Relies on std's `String::push`: appends exactly the one character.
#[verifier::external_body]
fn push_char(s: &mut String, c: char)
    ensures
        final(s)@ == old(s)@.push(c),
{
    s.push(c);
}

/// Decode the predefined markup entities in `s`.
pub fn decode_entities(s: &str) -> (r: String)
    ensures
        r@ == decode_entities_spec(s@),
{
    let n = s.unicode_len();
    let mut out = String::new();
    let mut i: usize = 0;
    proof {
        assert(s@.skip(0) =~= s@);
        assert(Seq::<char>::empty() + decode_entities_spec(s@) =~= decode_entities_spec(s@));
    }
    while i < n
        invariant
            n == s@.len(),
            0 <= i <= n,
            decode_entities_spec(s@) == out@ + decode_entities_spec(s@.skip(i as int)),
        decreases n - i,
    {
        let ghost tail = s@.skip(i as int);
        proof {
            assert(forall|k: int| 0 <= k < tail.len() ==> tail[k] == s@[i + k]);
        }
        let c = s.get_char(i);
        let mut consumed: usize = 1;
        let mut decoded: char = c;
        if c == '&' {
            if n - i > 4 && s.get_char(i + 1) == 'a' && s.get_char(i + 2) == 'm' && s.get_char(
                i + 3,
            ) == 'p' && s.get_char(i + 4) == ';' {
                consumed = 5;
                decoded = '&';
            } else if n - i > 3 && s.get_char(i + 1) == 'l' && s.get_char(i + 2) == 't'
                && s.get_char(i + 3) == ';' {
                consumed = 4;
                decoded = '<';
            } else if n - i > 3 && s.get_char(i + 1) == 'g' && s.get_char(i + 2) == 't'
                && s.get_char(i + 3) == ';' {
                consumed = 4;
                decoded = '>';
            } else if n - i > 5 && s.get_char(i + 1) == 'q' && s.get_char(i + 2) == 'u'
                && s.get_char(i + 3) == 'o' && s.get_char(i + 4) == 't' && s.get_char(i + 5)
                == ';' {
                consumed = 6;
                decoded = '"';
            } else if n - i > 5 && s.get_char(i + 1) == 'a' && s.get_char(i + 2) == 'p'
                && s.get_char(i + 3) == 'o' && s.get_char(i + 4) == 's' && s.get_char(i + 5)
                == ';' {
                consumed = 6;
                decoded = '\'';
            }
        }
        let ghost before = out@;
        push_char(&mut out, decoded);
        proof {
            assert(decode_entities_spec(tail) == seq![decoded] + decode_entities_spec(
                tail.skip(consumed as int),
            ));
            assert(tail.skip(consumed as int) =~= s@.skip(i as int + consumed as int));
            assert(before + (seq![decoded] + decode_entities_spec(
                s@.skip(i as int + consumed as int),
            )) =~= out@ + decode_entities_spec(s@.skip(i as int + consumed as int)));
        }
        i = i + consumed;
    }
    proof {
        assert(s@.skip(n as int) =~= Seq::<char>::empty());
        assert(out@ + Seq::<char>::empty() =~= out@);
    }
    out
}

} // verus!
