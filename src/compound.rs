use crate::segment::{best_seg, names_of};
use crate::table::PeriodicWords;
use vstd::prelude::*;
use vstd::string::StringExecFns;
use vstd::utf8::encode_utf8;

verus! {

/// `c` with an ASCII capital letter turned into its small letter.
pub open spec fn ascii_lower(c: char) -> char {
    if 'A' <= c && c <= 'Z' {
        ((c as u32) + 32) as char
    } else {
        c
    }
}

/// `s` with every ASCII capital letter turned into its small letter.
pub open spec fn lowercase_chars(s: Seq<char>) -> Seq<char> {
    s.map_values(|c: char| ascii_lower(c))
}

/// Relies on str::to_ascii_lowercase: each ASCII capital letter becomes its
/// small letter, every other character is kept.
#[verifier::external_body]
fn to_lowercase(s: &str) -> (r: String)
    ensures
        r@ == lowercase_chars(s@),
{
    s.to_ascii_lowercase()
}

/// The names of a compound, in order, each written as `[Name]`.
pub open spec fn bracketed(names: Seq<&'static str>) -> Seq<char>
    decreases names.len(),
{
    if names.len() == 0 {
        Seq::empty()
    } else {
        bracketed(names.drop_last()) + seq!['['] + names.last()@ + seq![']']
    }
}

/// The message for a word that no split into symbols exists for.
pub open spec fn miss_message(word: Seq<char>) -> Seq<char> {
    seq!['"'] + word + "\" can't be written with the periodic table until we discover more elements."@
}

/// The element names of a word's split, in order.
pub struct Compound(pub Vec<&'static str>);

impl Compound {
    /// The names one after the other, each within square brackets.
    pub fn render(&self) -> (r: String)
        ensures
            r@ == bracketed(self.0@),
    {
        let mut out = String::new();
        let mut i: usize = 0;
        while i < self.0.len()
            invariant
                i <= self.0.len(),
                out@ == bracketed(self.0@.subrange(0, i as int)),
            decreases self.0.len() - i,
        {
            let ghost prev = self.0@.subrange(0, i as int);
            proof {
                reveal_strlit("[");
                reveal_strlit("]");
            }
            out.append("[");
            out.append(self.0[i]);
            out.append("]");
            assert(self.0@.subrange(0, i + 1).drop_last() =~= prev);
            assert(out@ =~= bracketed(self.0@.subrange(0, i + 1)));
            i = i + 1;
        }
        assert(self.0@.subrange(0, self.0.len() as int) =~= self.0@);
        out
    }
}

impl PeriodicWords {
    /// Like `gen_compound`, on the word with its ASCII capitals made small.
    pub fn solve_word(&self, word: &str) -> (r: Option<Vec<&'static str>>)
        ensures
            r is Some <==> best_seg(self@, encode_utf8(lowercase_chars(word@)), 0) is Some,
            r is Some ==> r->Some_0@ == names_of(
                self@,
                best_seg(self@, encode_utf8(lowercase_chars(word@)), 0)->Some_0,
            ),
    {
        let lower = to_lowercase(word);
        self.gen_compound(lower.as_str())
    }

    /// The line to show for `line`: the word made small, a space and its
    /// compound when there is one; else the miss message when `show_misses`
    /// is set, and nothing otherwise.
    pub fn render_matches(&self, line: &str, show_misses: bool) -> (r: Option<String>)
        ensures
            ({
                let word = lowercase_chars(line@);
                match best_seg(self@, encode_utf8(word), 0) {
                    Some(seg) => r matches Some(m) && m@ == word + seq![' '] + bracketed(
                        names_of(self@, seg),
                    ),
                    None => if show_misses {
                        r matches Some(m) && m@ == miss_message(word)
                    } else {
                        r is None
                    },
                }
            }),
    {
        let line = to_lowercase(line);
        let maybe_compound = self.gen_compound(line.as_str());
        match maybe_compound {
            Some(compound) => {
                let compound = Compound(compound);
                let mut out = line;
                proof {
                    reveal_strlit(" ");
                }
                out.append(" ");
                let rendered = compound.render();
                out.append(rendered.as_str());
                Some(out)
            },
            None => {
                if show_misses {
                    proof {
                        reveal_strlit("\"");
                        reveal_strlit(
                            "\" can't be written with the periodic table until we discover more elements.",
                        );
                    }
                    let mut out = String::new();
                    out.append("\"");
                    out.append(line.as_str());
                    out.append(
                        "\" can't be written with the periodic table until we discover more elements.",
                    );
                    Some(out)
                } else {
                    None
                }
            },
        }
    }
}

/// Words that differ only in the case of ASCII letters get the same split.
pub proof fn lemma_case_insensitive(pw: &PeriodicWords, a: Seq<char>, b: Seq<char>)
    requires
        a.len() == b.len(),
        forall|i: int| 0 <= i < a.len() ==> ascii_lower(#[trigger] a[i]) == ascii_lower(b[i]),
    ensures
        best_seg(pw@, encode_utf8(lowercase_chars(a)), 0) == best_seg(
            pw@,
            encode_utf8(lowercase_chars(b)),
            0,
        ),
{
    assert(lowercase_chars(a) =~= lowercase_chars(b));
}

} // verus!
