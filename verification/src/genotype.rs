//! Genotype calls, and the genotype text of one alternate allele's row.

use vstd::prelude::*;
use vstd::string::StringExecFns;

use noodles::vcf::record::genotypes::sample::value::genotype::allele::Phasing;
use noodles::vcf::record::genotypes::sample::value::Genotype;

verus! {

/// One call of a genotype: the index of the allele called, unless the call is
/// missing, and whether the call is phased.
#[derive(Debug, Clone, Copy, PartialEq, Eq, Structural)]
pub struct Allele {
    pub position: Option<usize>,
    pub phased: bool,
}

/// The calls that a genotype text parses to, or `None` where it is not a
/// genotype.
pub uninterp spec fn parsed_genotype(text: Seq<char>) -> Option<Seq<Allele>>;

/// Parses a genotype text with `noodles`: `str::parse::<Genotype>`, that is
/// `Genotype::from_str`. The result is the parser's, call by call; a text it
/// refuses gives `None`. The parser cuts the text at byte positions that it
/// counts in characters, and panics where that falls inside a character:
/// the text has to be ASCII.
#[verifier::external_body]
pub(crate) fn parse_genotype(text: &str) -> (calls: Option<Vec<Allele>>)
    requires
        vstd::string::is_ascii(text),
    ensures
        parsed_genotype(text@) == match calls {
            Some(v) => Some(v@),
            None => None,
        },
{
    let parsed: Genotype = text.parse().ok()?;
    Some(
        parsed.iter().map(
            |allele| Allele {
                position: allele.position(),
                phased: match allele.phasing() {
                    Phasing::Phased => true,
                    Phasing::Unphased => false,
                },
            },
        ).collect(),
    )
}

/// The character a call is written as in the row of alternate allele
/// `alt_id`: `1` for that allele, `0` for the reference, `.` for any other
/// allele and for a missing call.
pub open spec fn call_char(position: Option<usize>, alt_id: usize) -> char {
    match position {
        Some(p) => if p == alt_id + 1 {
            '1'
        } else if p == 0 {
            '0'
        } else {
            '.'
        },
        None => '.',
    }
}

/// The separator written after a call: `|` where the call is phased, else `/`.
pub open spec fn separator(phased: bool) -> char {
    if phased {
        '|'
    } else {
        '/'
    }
}

/// The genotype text for the row of alternate allele `alt_id`: the calls in
/// order, each but the last followed by its separator.
pub open spec fn genotype_text(calls: Seq<Allele>, alt_id: usize) -> Seq<char> {
    if calls.len() == 0 {
        Seq::empty()
    } else {
        Seq::new(
            (2 * calls.len() - 1) as nat,
            |i: int|
                if i % 2 == 0 {
                    call_char(calls[i / 2].position, alt_id)
                } else {
                    separator(calls[i / 2].phased)
                },
        )
    }
}

/// Writes the genotype text for the row of alternate allele `alt_id`.
pub fn genotype_string(calls: &Vec<Allele>, alt_id: usize) -> (text: String)
    ensures
        text@ == genotype_text(calls@, alt_id),
{
    let mut text = String::new();
    let n: usize = calls.len();
    let mut i: usize = 0;
    while i < n
        invariant
            n == calls.len(),
            i <= n,
            text@.len() == 2 * i,
            forall|k: int|
                0 <= k < 2 * i ==> text@[k] == if k % 2 == 0 {
                    call_char(calls[k / 2].position, alt_id)
                } else {
                    separator(calls[k / 2].phased)
                },
            i == n ==> text@ == genotype_text(calls@, alt_id),
        decreases n - i,
    {
        let call = calls[i];
        let ghost before = text@;
        proof {
            reveal_strlit("0");
            reveal_strlit("1");
            reveal_strlit(".");
            reveal_strlit("/");
            reveal_strlit("|");
        }
        match call.position {
            Some(p) => {
                if alt_id < usize::MAX && p == alt_id + 1 {
                    text.append("1");
                } else if p == 0 {
                    text.append("0");
                } else {
                    text.append(".");
                }
            },
            None => {
                text.append(".");
            },
        }
        assert(text@ =~= before.push(call_char(call.position, alt_id)));
        if i + 1 < n {
            if call.phased {
                text.append("|");
            } else {
                text.append("/");
            }
            assert(text@ =~= before.push(call_char(call.position, alt_id)).push(
                separator(call.phased),
            ));
        } else {
            assert(text@ =~= genotype_text(calls@, alt_id));
            return text;
        }
        i += 1;
    }
    text
}

} // verus!
