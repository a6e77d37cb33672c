//! Helpers around the driver boundary: lenient decoding of driver-supplied
//! C text, the acquisition policy for the process-wide driver lock, one-shot
//! slots for values the driver fills, and the translation of driver log
//! severities onto the host's leveled logging scale.

use vstd::prelude::*;
use vstd::slice::slice_index_get;
use vstd::string::StringExecFns;

verus! {

/// The characters that a byte sequence decodes to when every invalid
/// encoding in it is replaced rather than rejected.
pub uninterp spec fn lossy_decoded(bytes: Seq<u8>) -> Seq<char>;

/// Relies on alloc's String::from_utf8_lossy: it decodes leniently,
/// substituting a placeholder for each invalid sequence, never failing;
/// the result depends on the bytes alone, and no bytes decode to nothing.
#[verifier::external_body]
fn decode_utf8_lossy(bytes: &[u8]) -> (r: String)
    ensures
        r@ == lossy_decoded(bytes@),
        bytes@.len() == 0 ==> r@.len() == 0,
{
    String::from_utf8_lossy(bytes).into_owned()
}

/// How many bytes stand before the first NUL: the whole length when no
/// NUL occurs.
pub open spec fn nul_span(bytes: Seq<u8>) -> int
    decreases bytes.len(),
{
    if bytes.len() == 0 {
        0
    } else if bytes[0] == 0 {
        0
    } else {
        1 + nul_span(bytes.skip(1))
    }
}

proof fn lemma_nul_span_at(bytes: Seq<u8>, k: int)
    requires
        0 <= k <= bytes.len(),
        forall|j: int| 0 <= j < k ==> bytes[j] != 0,
        k < bytes.len() ==> bytes[k] == 0,
    ensures
        nul_span(bytes) == k,
    decreases k,
{
    if k == 0 {
    } else {
        let tail = bytes.skip(1);
        assert forall|j: int| 0 <= j < k - 1 implies tail[j] != 0 by {
            assert(tail[j] == bytes[j + 1]);
        }
        assert(k - 1 < tail.len() ==> tail[k - 1] == bytes[k]);
        lemma_nul_span_at(tail, k - 1);
    }
}

/// Decodes driver-supplied C text: the bytes up to the first NUL (or all
/// of them, when none occurs), decoded leniently so that invalid sequences
/// are repaired, never reported as a failure.
pub fn chars_to_string(bytes: &[u8]) -> (r: String)
    ensures
        r@ == lossy_decoded(bytes@.take(nul_span(bytes@))),
{
    let n = bytes.len();
    let mut end: usize = 0;
    while end < n && *slice_index_get(bytes, end) != 0
        invariant
            end <= n,
            n == bytes@.len(),
            forall|j: int| 0 <= j < end ==> bytes@[j] != 0,
        decreases n - end,
    {
        end += 1;
    }
    proof {
        lemma_nul_span_at(bytes@, end as int);
    }
    let mut prefix: Vec<u8> = Vec::new();
    let mut i: usize = 0;
    while i < end
        invariant
            i <= end,
            end <= n,
            n == bytes@.len(),
            prefix@ == bytes@.take(i as int),
        decreases end - i,
    {
        prefix.push(*slice_index_get(bytes, i));
        proof {
            assert(prefix@ =~= bytes@.take(i + 1));
        }
        i += 1;
    }
    proof {
        assert(prefix@ =~= bytes@.take(nul_span(bytes@)));
    }
    decode_utf8_lossy(prefix.as_slice())
}

#[verifier::external_type_specification]
#[verifier::external_body]
#[verifier::reject_recursive_types(T)]
pub struct ExPoisonError<T>(std::sync::PoisonError<T>);

/// Relies on std::sync::PoisonError::into_inner: it returns the guard that
/// the poisoned-lock error wraps, without panicking.
pub assume_specification<T>[ std::sync::PoisonError::<T>::into_inner ](
    e: std::sync::PoisonError<T>,
) -> T;

/// The acquisition policy for the process-wide lock that serializes the
/// driver entry points touching process-global state. The lock guards only
/// ordering, never recoverable data, so a poisoned outcome is treated as
/// still acquirable and its guard is taken over; an unpoisoned outcome
/// hands its guard through unchanged. Acquisition never fails.
pub fn libtool_lock<T>(outcome: Result<T, std::sync::PoisonError<T>>) -> (r: T)
    ensures
        outcome is Ok ==> r == outcome->Ok_0,
{
    match outcome {
        Ok(guard) => guard,
        Err(poisoned) => poisoned.into_inner(),
    }
}

/// A one-shot slot for a value that an out-parameter call fills: empty
/// until its one write, and readable only once filled.
pub struct UninitBox<T> {
    inner: Option<T>,
}

impl<T> UninitBox<T> {
    /// Whether the slot has been filled.
    pub closed spec fn is_init(self) -> bool {
        self.inner is Some
    }

    /// The value the slot holds, once filled.
    pub closed spec fn value(self) -> T
        recommends
            self.is_init(),
    {
        self.inner->Some_0
    }

    /// An empty slot awaiting its one value.
    pub fn uninit() -> (r: Self)
        ensures
            !r.is_init(),
    {
        UninitBox { inner: None }
    }

    /// Fills the slot.
    pub fn init(&mut self, value: T)
        requires
            !old(self).is_init(),
        ensures
            final(self).is_init(),
            final(self).value() == value,
    {
        self.inner = Some(value);
    }

    /// Takes the value out of a filled slot.
    pub fn assume_init(self) -> (r: T)
        requires
            self.is_init(),
        ensures
            r == self.value(),
    {
        self.inner.unwrap()
    }
}

/// Driver log severity code: an error report.
pub const LOG_LEVEL_ERROR: i32 = 0;

/// Driver log severity code: verbose progress text.
pub const LOG_LEVEL_VERBOSE: i32 = 1;

/// Driver log severity code: debugging detail.
pub const LOG_LEVEL_DEBUG: i32 = 2;

/// Driver log severity code: raw data dumps. The logging hook is never
/// expected to see it; its appearance is a contract violation.
pub const LOG_LEVEL_DATA: i32 = 3;

/// The host-side logging levels that driver severities map onto.
#[derive(Clone, Copy, Debug, PartialEq, Eq, Structural)]
pub enum LogLevel {
    Error,
    Debug,
    Info,
}

/// Which host level a driver severity maps onto: errors stay errors,
/// verbose text is informational, debugging detail stays debug, and any
/// other code (the data severity among them) maps to nothing.
pub open spec fn translated_log_level(level: i32) -> Option<LogLevel> {
    if level == LOG_LEVEL_ERROR {
        Some(LogLevel::Error)
    } else if level == LOG_LEVEL_VERBOSE {
        Some(LogLevel::Info)
    } else if level == LOG_LEVEL_DEBUG {
        Some(LogLevel::Debug)
    } else {
        None
    }
}

/// Translates one driver log severity onto the host's scale.
pub fn translate_log_level(level: i32) -> (r: Option<LogLevel>)
    ensures
        r == translated_log_level(level),
{
    if level == LOG_LEVEL_ERROR {
        Some(LogLevel::Error)
    } else if level == LOG_LEVEL_VERBOSE {
        Some(LogLevel::Info)
    } else if level == LOG_LEVEL_DEBUG {
        Some(LogLevel::Debug)
    } else {
        None
    }
}

/// The log target under which a driver domain's messages are reported.
pub fn log_target(domain: &str) -> (r: String)
    ensures
        r@ == "gphoto2::"@ + domain@,
{
    let mut target = String::from_str("gphoto2::");
    target.append(domain);
    target
}

} // verus!
