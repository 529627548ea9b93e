//! Naming a test's golden output, and switching the trace on with it.

use vstd::prelude::*;
use crate::collaborators::{BlockExecutor, ConfigFetcher, TransactionValidator};
use crate::executor::FakeExecutor;
use crate::recorder::{fresh_trace, TraceStore, TraceStoreView};
use crate::transaction::{SignedTransaction, VMValidatorResult};

verus! {

/// A test name made fit for a file name: every colon becomes an
/// underscore.
pub open spec fn sanitized(name: Seq<char>) -> Seq<char> {
    Seq::new(name.len(), |i: int| if name[i] == ':' { '_' } else { name[i] })
}

/// A text with each occurrence of the character `from` replaced by the
/// text `to`.
pub open spec fn replaced(text: Seq<char>, from: char, to: Seq<char>) -> Seq<char>
    decreases text.len(),
{
    if text.len() == 0 {
        Seq::empty()
    } else {
        replaced(text.drop_last(), from, to) + (if text.last() == from {
            to
        } else {
            seq![text.last()]
        })
    }
}

/// Calls `str::replace` with a character as the pattern: every occurrence
/// of the character gives way to the replacement text.
#[verifier::external_body]
fn replace_char(text: &str, from: char, to: &str) -> (r: String)
    ensures
        r@ == replaced(text@, from, to@),
{
    text.replace(from, to)
}

proof fn lemma_replaced_by_one_char(text: Seq<char>, from: char, to: char)
    ensures
        replaced(text, from, seq![to]) == Seq::new(
            text.len(),
            |i: int| if text[i] == from { to } else { text[i] },
        ),
    decreases text.len(),
{
    let target = Seq::new(text.len(), |i: int| if text[i] == from { to } else { text[i] });
    if text.len() == 0 {
        assert(replaced(text, from, seq![to]) =~= target);
    } else {
        let front = text.drop_last();
        lemma_replaced_by_one_char(front, from, to);
        assert(replaced(text, from, seq![to]) =~= target);
    }
}

/// Makes a test name fit for a file name.
pub fn sanitize(test_name: &str) -> (r: String)
    ensures
        r@ == sanitized(test_name@),
{
    let r = replace_char(test_name, ':', "_");
    proof {
        reveal_strlit("_");
        assert("_"@ =~= seq!['_']);
        lemma_replaced_by_one_char(test_name@, ':', '_');
    }
    r
}

/// The character of a decimal digit.
pub open spec fn digit_char(d: nat) -> char {
    if d == 0 { '0' } else if d == 1 { '1' } else if d == 2 { '2' } else if d == 3 { '3' } else if d == 4 { '4'
    } else if d == 5 { '5' } else if d == 6 { '6' } else if d == 7 { '7' } else if d == 8 { '8' } else { '9' }
}

/// The decimal numeral of a number, without leading zeros.
pub open spec fn decimal(n: nat) -> Seq<char>
    decreases n,
{
    if n < 10 {
        seq![digit_char(n)]
    } else {
        decimal(n / 10).push(digit_char(n % 10))
    }
}

/// The content of a trace's name file: the test's name as given, two
/// colons, and the version in decimal.
pub open spec fn name_file_text(test_name: Seq<char>, version: u64) -> Seq<char> {
    test_name + seq![':', ':'] + decimal(version as nat)
}

/// Formats a text, a separator and a number one after the other with
/// `format!`; `Display` prints an integer as its decimal numeral.
#[verifier::external_body]
fn format_labelled(text: &str, separator: &str, number: u64) -> (r: String)
    ensures
        r@ == text@ + separator@ + decimal(number as nat),
{
    format!("{}{}{}", text, separator, number)
}

/// The content of the name file of a test at a version.
pub fn name_file(test_name: &str, version: u64) -> (r: String)
    ensures
        r@ == name_file_text(test_name@, version),
{
    proof {
        reveal_strlit("::");
        assert("::"@ =~= seq![':', ':']);
    }
    format_labelled(test_name, "::", version)
}

/// The version that a trace is labelled with: the one on chain, or zero
/// where there is none.
pub open spec fn trace_version(version: Option<u64>) -> u64 {
    match version {
        Some(v) => v,
        None => 0,
    }
}

/// The trace after a golden output was named: a fresh one below the given
/// root, or the one that was there where no root is given.
pub open spec fn trace_after_naming(
    before: Option<TraceStoreView>,
    test_name: Seq<char>,
    trace_root: Option<Seq<char>>,
    version: Option<u64>,
) -> Option<TraceStoreView> {
    match trace_root {
        Some(root) => Some(
            fresh_trace(root, sanitized(test_name), name_file_text(test_name, trace_version(version))),
        ),
        None => before,
    }
}

/// The characters of an optional text.
pub open spec fn text_view(text: Option<String>) -> Option<Seq<char>> {
    match text {
        Some(t) => Some(t@),
        None => None,
    }
}

/// Builds the fresh trace of a test.
pub fn start_trace(test_name: &str, trace_root: String, version: Option<u64>) -> (r: TraceStore)
    ensures
        r.wf(),
        r@ == fresh_trace(trace_root@, sanitized(test_name@), name_file_text(test_name@, trace_version(version))),
{
    let major = match version {
        Some(v) => v,
        None => 0,
    };
    TraceStore::new(trace_root, sanitize(test_name), name_file(test_name, major))
}

impl<S: BlockExecutor, P: BlockExecutor> FakeExecutor<S, P> {
    /// Names the golden output of this test. The name is the test's name
    /// with colons replaced. Where a trace root is given, tracing starts
    /// afresh below it, labelled with the test's name and the version on
    /// chain; once on, tracing stays on.
    pub fn set_golden_file<C: ConfigFetcher>(&mut self, config: &C, test_name: &str, trace_root: Option<String>)
        requires
            old(self).wf(),
        ensures
            final(self).wf(),
            final(self).state() == old(self).state(),
            final(self).time() == old(self).time(),
            final(self).golden_name() == Some(sanitized(test_name@)),
            exists|version: Option<u64>|
                final(self).trace_view() == #[trigger] trace_after_naming(
                    old(self).trace_view(),
                    test_name@,
                    text_view(trace_root),
                    version,
                ),
    {
        let file_name = sanitize(test_name);
        let ghost root_view: Option<Seq<char>> = text_view(trace_root);
        match trace_root {
            Some(root) => {
                let version = config.version_major(self.get_state_view());
                let store = start_trace(test_name, root, version);
                self.set_logging(file_name, Some(store));
                proof {
                    assert(self.trace_view() == trace_after_naming(
                        old(self).trace_view(),
                        test_name@,
                        root_view,
                        version,
                    ));
                }
            },
            None => {
                self.set_logging(file_name, None);
                proof {
                    assert(self.trace_view() == trace_after_naming(
                        old(self).trace_view(),
                        test_name@,
                        root_view,
                        None,
                    ));
                }
            },
        }
    }

    /// Runs a user transaction through the validator, against the current
    /// state, without executing it.
    pub fn verify_transaction<V: TransactionValidator>(&self, validator: &V, txn: SignedTransaction) -> (r:
        VMValidatorResult)
        requires
            self.wf(),
    {
        validator.validate_transaction(&txn, self.get_state_view())
    }
}

} // verus!
