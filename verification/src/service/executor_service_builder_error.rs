use vstd::prelude::*;

use super::submission_error::SubmissionError;

verus! {

/// Error returned when an executor service cannot be built.
#[derive(Debug)]
pub enum ExecutorServiceBuilderError {
    /// The configured fixed worker count is zero.
    ZeroPoolSize,
    /// The configured maximum pool size is zero.
    ZeroMaximumPoolSize,
    /// The configured core pool size is greater than the maximum pool size.
    CorePoolSizeExceedsMaximum {
        /// Configured core pool size.
        core_pool_size: usize,
        /// Configured maximum pool size.
        maximum_pool_size: usize,
    },
    /// The configured bounded queue capacity is zero.
    ZeroQueueCapacity,
    /// The configured worker stack size is zero.
    ZeroStackSize,
    /// The configured keep-alive timeout is zero.
    ZeroKeepAlive,
    /// A worker thread could not be spawned.
    SpawnWorker {
        /// Index of the worker that failed to spawn when the builder knows it.
        index: Option<usize>,
        /// Error reported by the thread builder.
        source: std::io::Error,
    },
}

/// Character of one decimal digit.
pub open spec fn digit_char(d: nat) -> char {
    if d == 0 { '0' }
    else if d == 1 { '1' }
    else if d == 2 { '2' }
    else if d == 3 { '3' }
    else if d == 4 { '4' }
    else if d == 5 { '5' }
    else if d == 6 { '6' }
    else if d == 7 { '7' }
    else if d == 8 { '8' }
    else { '9' }
}

/// Decimal text of a natural number, most significant digit first, without
/// leading zeros.
pub open spec fn decimal_text(n: nat) -> Seq<char>
    decreases n,
{
    if n < 10 {
        seq![digit_char(n)]
    } else {
        decimal_text(n / 10).push(digit_char(n % 10))
    }
}

/// Text shown for a worker index in build-error messages.
pub open spec fn worker_index_text(index: Option<usize>) -> Seq<char> {
    match index {
        Some(i) => decimal_text(i as nat),
        None => seq!['u', 'n', 'k', 'n', 'o', 'w', 'n'],
    }
}

/// Decimal rendering of an index through `<usize as ToString>::to_string`.
///
/// Claims that std's `Display` for `usize` writes the plain decimal digits of
/// the value, which is what its documentation gives.
#[verifier::external_body]
fn usize_decimal(n: usize) -> (text: String)
    ensures
        text@ == decimal_text(n as nat),
{
    n.to_string()
}

/// Text that an I/O error built from a string message displays: that
/// message, fixed once the error is built. Only the errors that
/// `io_error_new` and `io_error_other` build are given a text; the text of
/// any other error is left unsaid, since it need not be fixed (a custom
/// payload displays as it likes, and an operating-system error displays the
/// platform's description, which can follow the process locale).
pub uninterp spec fn io_error_text(error: std::io::Error) -> Seq<char>;

/// Kind of an I/O error, as `std::io::Error::kind` returns it.
pub uninterp spec fn io_error_kind_of(error: std::io::Error) -> std::io::ErrorKind;

/// Whether an I/O error kind equals `std::io::ErrorKind::Other`. The kind
/// type is opaque here, so a contract cannot write its variants.
pub uninterp spec fn io_kind_is_other(kind: std::io::ErrorKind) -> bool;

/// Kind of an I/O error, through `std::io::Error::kind`: the named kind of
/// the error.
#[verifier::external_body]
fn io_error_kind(error: &std::io::Error) -> (kind: std::io::ErrorKind)
    ensures
        kind == io_error_kind_of(*error),
{
    error.kind()
}

/// Message of an I/O error, through its `Display` implementation
/// (`ToString::to_string`). Nothing about the text is stated: what an
/// arbitrary error displays can change from one call to the next.
#[verifier::external_body]
fn io_error_message(error: &std::io::Error) -> String {
    error.to_string()
}

/// A fresh I/O error of the given kind and message, through
/// `std::io::Error::new`. Its kind is the given kind, and it displays the
/// message, as std documents for an error built from a message.
#[verifier::external_body]
fn io_error_new(kind: std::io::ErrorKind, message: String) -> (error: std::io::Error)
    ensures
        io_error_kind_of(error) == kind,
        io_error_text(error) == message@,
{
    std::io::Error::new(kind, message)
}

/// A fresh I/O error of kind `Other` with the given message, through
/// `std::io::Error::other`, which std documents as `Error::new` with
/// `ErrorKind::Other`. It displays the message.
#[verifier::external_body]
fn io_error_other(message: &str) -> (error: std::io::Error)
    ensures
        io_kind_is_other(io_error_kind_of(error)),
        io_error_text(error) == message@,
{
    std::io::Error::other(message)
}

/// Formats an optional worker index for display: its decimal digits when the
/// index is known, `unknown` otherwise.
pub fn format_worker_index(index: Option<usize>) -> (text: String)
    ensures
        text@ == worker_index_text(index),
{
    match index {
        Some(i) => usize_decimal(i),
        None => {
            let text = "unknown".to_owned();
            proof {
                reveal_strlit("unknown");
            }
            text
        },
    }
}

impl ExecutorServiceBuilderError {
    /// A worker-spawn failure with an unknown worker index whose source is a
    /// fresh I/O error of the given kind that displays the given message.
    pub fn spawn_worker_with(kind: std::io::ErrorKind, message: String) -> (built: Self)
        ensures
            built is SpawnWorker,
            built->index == Option::<usize>::None,
            io_error_kind_of(built->source) == kind,
            io_error_text(built->source) == message@,
    {
        ExecutorServiceBuilderError::SpawnWorker { index: None, source: io_error_new(kind, message) }
    }

    /// Converts a runtime worker-spawn rejection into a build error.
    ///
    /// Every rejection becomes `SpawnWorker` with an unknown worker index. A
    /// spawn failure becomes [`Self::spawn_worker_with`] applied to the kind
    /// of its I/O error and to the message that error displays at the call;
    /// a shutdown or saturation rejection becomes an I/O error of kind
    /// `Other` that names the condition.
    pub fn from_submission_error(error: SubmissionError) -> (built: Self)
        ensures
            built is SpawnWorker,
            built->index == Option::<usize>::None,
            match error {
                SubmissionError::WorkerSpawnFailed { source } => {
                    io_error_kind_of(built->source) == io_error_kind_of(source)
                },
                SubmissionError::Shutdown => {
                    &&& io_kind_is_other(io_error_kind_of(built->source))
                    &&& io_error_text(built->source) == "executor service shut down during prestart"@
                },
                SubmissionError::Saturated => {
                    &&& io_kind_is_other(io_error_kind_of(built->source))
                    &&& io_error_text(built->source) == "executor service saturated during prestart"@
                },
            },
    {
        match error {
            SubmissionError::WorkerSpawnFailed { source } => {
                let kind = io_error_kind(&source);
                let message = io_error_message(&source);
                Self::spawn_worker_with(kind, message)
            },
            SubmissionError::Shutdown => ExecutorServiceBuilderError::SpawnWorker {
                index: None,
                source: io_error_other("executor service shut down during prestart"),
            },
            SubmissionError::Saturated => ExecutorServiceBuilderError::SpawnWorker {
                index: None,
                source: io_error_other("executor service saturated during prestart"),
            },
        }
    }
}

} // verus!
