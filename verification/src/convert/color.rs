//! Hex color helper that normalizes the leading `#`.
//!
//! Zed theme JSON requires colors in `#rrggbb` / `#rrggbbaa` form. A
//! translucent color is made by appending an alpha suffix to a color that
//! carries exactly one leading `#`.

use vstd::prelude::*;

use crate::text::{chars_of, lemma_strip_leading_suffix, push_char, strip_leading};

verus! {

/// A hex color normalized to exactly one leading `#`.
pub open spec fn normalized_hex(s: Seq<char>) -> Seq<char> {
    seq!['#'] + strip_leading(s, '#')
}

/// The translucent color made from `color` with the 2-digit `alpha` suffix.
pub open spec fn alpha_color(color: Seq<char>, alpha: Seq<char>) -> Seq<char> {
    normalized_hex(color) + alpha
}

/// Normalizing a color gives exactly one leading `#`, keeps what follows
/// the leading `#`s, and is idempotent.
pub proof fn lemma_normalized_hex(s: Seq<char>)
    ensures
        normalized_hex(s)[0] == '#',
        normalized_hex(s).len() > 1 ==> normalized_hex(s)[1] != '#',
        strip_leading(normalized_hex(s), '#') == strip_leading(s, '#'),
        normalized_hex(normalized_hex(s)) == normalized_hex(s),
{
    let t = strip_leading(s, '#');
    lemma_strip_leading_suffix(s, '#');
    let n = seq!['#'] + t;
    assert(n.drop_first() =~= t);
    if t.len() > 0 {
        assert(t[0] != '#');
        assert(strip_leading(t, '#') == t);
    } else {
        assert(strip_leading(t, '#') == t);
    }
}

/// A translucent color carries exactly one leading `#`, then the color
/// without its leading `#`s, then the alpha suffix.
pub proof fn lemma_alpha_color(color: Seq<char>, alpha: Seq<char>)
    ensures
        alpha_color(color, alpha) == seq!['#'] + strip_leading(color, '#') + alpha,
        alpha_color(color, alpha)[0] == '#',
        strip_leading(color, '#').len() > 0 ==> alpha_color(color, alpha)[1] != '#',
{
    lemma_strip_leading_suffix(color, '#');
}

/// A hex color string, normalized to carry exactly one leading `#`.
#[derive(Debug)]
pub struct HexColor(String);

impl View for HexColor {
    type V = Seq<char>;

    closed spec fn view(&self) -> Seq<char> {
        self.0@
    }
}

impl HexColor {
    /// Wrap a hex color, normalizing to a single leading `#`
    /// (idempotent whether or not the input already has one).
    pub fn new(s: &str) -> (r: Self)
        ensures
            r@ == normalized_hex(s@),
    {
        let v = chars_of(s);
        let mut i: usize = 0;
        assert(v@.subrange(0, v@.len() as int) =~= v@);
        while i < v.len() && v[i] == '#'
            invariant
                v@ == s@,
                i <= v@.len(),
                strip_leading(s@, '#') == strip_leading(v@.subrange(i as int, v@.len() as int), '#'),
            decreases v@.len() - i,
        {
            proof {
                let t = v@.subrange(i as int, v@.len() as int);
                assert(t.drop_first() =~= v@.subrange(i + 1, v@.len() as int));
            }
            i += 1;
        }
        let mut out = String::new();
        push_char(&mut out, '#');
        let ghost start = i;
        while i < v.len()
            invariant
                v@ == s@,
                start <= i <= v@.len(),
                out@ == seq!['#'] + v@.subrange(start as int, i as int),
            decreases v@.len() - i,
        {
            push_char(&mut out, v[i]);
            i += 1;
            assert(out@ =~= seq!['#'] + v@.subrange(start as int, i as int));
        }
        proof {
            let t = v@.subrange(start as int, v@.len() as int);
            assert(t.len() == 0 || t[0] != '#');
            assert(strip_leading(t, '#') == t);
        }
        HexColor(out)
    }

    /// Append a 2-digit alpha suffix, preserving the leading `#`.
    pub fn with_alpha(&self, alpha: &str) -> (r: String)
        ensures
            r@ == self@ + alpha@,
    {
        let mut r = self.0.clone();
        r.append(alpha);
        r
    }
}

/// `HexColor::new(color).with_alpha(alpha)`.
pub fn translucent(color: &str, alpha: &str) -> (r: String)
    ensures
        r@ == alpha_color(color@, alpha@),
{
    HexColor::new(color).with_alpha(alpha)
}

} // verus!
