//! Ticket fan-out.
//!
//! A submitted issue report is validated once at the boundary, given
//! the next ticket number of its guild, and turned into a plan: one
//! private-thread request per configured support channel, every one
//! carrying the same title, so the same logical ticket is discoverable
//! under an identical name everywhere. The caller performs the plan
//! against the messaging port and folds the per-channel outcomes back
//! into a report; a failure in one channel never prevents the attempt
//! on its siblings.

use vstd::prelude::*;

use crate::error::{fits_store_id, Error};
use crate::tickets::{counters_wf, spec_allocate, TicketSequencer};

verus! {

/// Length, in characters, of the issue excerpt a thread title carries.
pub const EXCERPT_CHARS: usize = 50;

/// The character of one decimal digit.
pub open spec fn digit_char(d: int) -> char {
    if d == 0 {
        '0'
    } else if d == 1 {
        '1'
    } else if d == 2 {
        '2'
    } else if d == 3 {
        '3'
    } else if d == 4 {
        '4'
    } else if d == 5 {
        '5'
    } else if d == 6 {
        '6'
    } else if d == 7 {
        '7'
    } else if d == 8 {
        '8'
    } else {
        '9'
    }
}

/// The decimal numeral of `n`, most significant digit first.
pub open spec fn dec_digits(n: int) -> Seq<char>
    recommends
        n >= 0,
    decreases n,
{
    if n < 10 {
        seq![digit_char(n)]
    } else {
        dec_digits(n / 10).push(digit_char(n % 10))
    }
}

/// The issue excerpt a title carries: the whole issue text when it is
/// short, else its first `EXCERPT_CHARS` characters.
pub open spec fn excerpt_of(issue: Seq<char>) -> Seq<char> {
    if issue.len() <= EXCERPT_CHARS {
        issue
    } else {
        issue.take(EXCERPT_CHARS as int)
    }
}

/// The thread title of a ticket: its number, the submitter's display
/// name and a short excerpt of the issue text, dash-separated.
pub open spec fn title_of(ticket_id: int, username: Seq<char>, issue: Seq<char>) -> Seq<char> {
    dec_digits(ticket_id) + seq![' ', '-', ' '] + username + seq![' ', '-', ' '] + excerpt_of(issue)
}

/// The one-character string of a decimal digit.
fn digit_str(d: u32) -> (r: &'static str)
    requires
        d < 10,
    ensures
        r@ == seq![digit_char(d as int)],
{
    if d == 0 {
        proof {
            reveal_strlit("0");
            assert("0"@ =~= seq![digit_char(d as int)]);
        }
        "0"
    } else if d == 1 {
        proof {
            reveal_strlit("1");
            assert("1"@ =~= seq![digit_char(d as int)]);
        }
        "1"
    } else if d == 2 {
        proof {
            reveal_strlit("2");
            assert("2"@ =~= seq![digit_char(d as int)]);
        }
        "2"
    } else if d == 3 {
        proof {
            reveal_strlit("3");
            assert("3"@ =~= seq![digit_char(d as int)]);
        }
        "3"
    } else if d == 4 {
        proof {
            reveal_strlit("4");
            assert("4"@ =~= seq![digit_char(d as int)]);
        }
        "4"
    } else if d == 5 {
        proof {
            reveal_strlit("5");
            assert("5"@ =~= seq![digit_char(d as int)]);
        }
        "5"
    } else if d == 6 {
        proof {
            reveal_strlit("6");
            assert("6"@ =~= seq![digit_char(d as int)]);
        }
        "6"
    } else if d == 7 {
        proof {
            reveal_strlit("7");
            assert("7"@ =~= seq![digit_char(d as int)]);
        }
        "7"
    } else if d == 8 {
        proof {
            reveal_strlit("8");
            assert("8"@ =~= seq![digit_char(d as int)]);
        }
        "8"
    } else {
        proof {
            reveal_strlit("9");
            assert("9"@ =~= seq![digit_char(d as int)]);
        }
        "9"
    }
}

/// Appends the decimal numeral of `n` to `out`.
fn push_decimal(n: u32, out: &mut String)
    ensures
        final(out)@ == old(out)@ + dec_digits(n as int),
    decreases n,
{
    if n >= 10 {
        push_decimal(n / 10, out);
        out.append(digit_str(n % 10));
        proof {
            assert((n / 10) as int == n as int / 10);
            assert((n % 10) as int == n as int % 10);
            assert(out@ =~= old(out)@ + dec_digits(n as int));
        }
    } else {
        out.append(digit_str(n));
        proof {
            assert(out@ =~= old(out)@ + dec_digits(n as int));
        }
    }
}

/// Builds the title used across every fan-out channel of one ticket:
/// deterministic in the ticket number, the submitter's display name
/// and the issue text.
pub fn build_thread_title(ticket_id: i32, username: &str, issue: &str) -> (r: String)
    requires
        ticket_id >= 0,
    ensures
        r@ == title_of(ticket_id as int, username@, issue@),
{
    let mut out = String::new();
    push_decimal(ticket_id as u32, &mut out);
    out.append(" - ");
    out.append(username);
    out.append(" - ");
    let issue_len = issue.unicode_len();
    let cut = if issue_len < EXCERPT_CHARS {
        issue_len
    } else {
        EXCERPT_CHARS
    };
    out.append(issue.substring_char(0, cut));
    proof {
        reveal_strlit(" - ");
        assert(" - "@ =~= seq![' ', '-', ' ']);
        assert(ticket_id as u32 as int == ticket_id as int);
        assert(issue@.subrange(0, cut as int) =~= excerpt_of(issue@));
        assert(out@ =~= title_of(ticket_id as int, username@, issue@));
    }
    out
}

/// A validated issue report: the required fields are present and
/// non-empty, and empty additional text has been dropped.
#[derive(Debug)]
pub struct TicketSubmission {
    pub issue: String,
    pub version: String,
    pub additional: Option<String>,
}

/// The shape `validate_submission` establishes.
pub open spec fn submission_wf(s: TicketSubmission) -> bool {
    &&& s.issue@.len() > 0
    &&& s.version@.len() > 0
    &&& match s.additional {
        Some(t) => t@.len() > 0,
        None => true,
    }
}

/// Validates the raw field values of a submitted report once, at the
/// boundary: the issue and the version are required and must be
/// non-empty; additional text that is absent or empty counts as not
/// provided and is dropped, which later suppresses its embed.
pub fn validate_submission(issue: Option<String>, version: Option<String>, additional: Option<
    String,
>) -> (r: Result<TicketSubmission, Error>)
    ensures
        r is Ok <==> ((issue matches Some(i) && i@.len() > 0) && (version matches Some(v)
            && v@.len() > 0)),
        r is Err ==> r == Err::<TicketSubmission, Error>(Error::MissingRequiredInput),
        r is Ok ==> ({
            let s = r->Ok_0;
            &&& Some(s.issue) == issue
            &&& Some(s.version) == version
            &&& s.additional == (match additional {
                Some(t) => if t@.len() > 0 {
                    Some(t)
                } else {
                    None::<String>
                },
                None => None::<String>,
            })
            &&& submission_wf(s)
        }),
{
    let issue_text = match issue {
        Some(t) => {
            if t.as_str().is_empty() {
                return Err(Error::MissingRequiredInput);
            }
            t
        },
        None => { return Err(Error::MissingRequiredInput) },
    };
    let version_text = match version {
        Some(t) => {
            if t.as_str().is_empty() {
                return Err(Error::MissingRequiredInput);
            }
            t
        },
        None => { return Err(Error::MissingRequiredInput) },
    };
    let additional_text = match additional {
        Some(t) => {
            if t.as_str().is_empty() {
                None
            } else {
                Some(t)
            }
        },
        None => None,
    };
    Ok(TicketSubmission { issue: issue_text, version: version_text, additional: additional_text })
}

/// One thread to open: in which channel, under what title.
#[derive(Debug)]
pub struct ThreadRequest {
    pub channel_id: u64,
    pub title: String,
}

/// Everything the messaging port needs to perform one dispatch: the
/// allocated ticket number, one thread request per configured support
/// channel in configuration order, the roles and the submitter to
/// mention, and the embed texts (the additional embed is absent when
/// no additional text was provided).
#[derive(Debug)]
pub struct DispatchPlan {
    pub ticket_id: i32,
    pub submitter_id: u64,
    pub threads: Vec<ThreadRequest>,
    pub role_ids: Vec<u64>,
    pub issue: String,
    pub version: String,
    pub additional: Option<String>,
}

/// Turns a validated report into a dispatch plan for its guild:
/// allocates the next ticket number (persisting the counter in the
/// same step) and lays out one thread request per configured support
/// channel, every one carrying the identical title. An interaction
/// without a guild, a guild identifier that does not fit the store,
/// or an exhausted counter fails without touching the counter state.
pub fn plan_dispatch(
    seq: &mut TicketSequencer,
    guild_id: Option<u64>,
    submitter_id: u64,
    submitter_name: &str,
    submission: TicketSubmission,
    channels: &Vec<u64>,
    role_ids: Vec<u64>,
) -> (r: Result<DispatchPlan, Error>)
    requires
        counters_wf(old(seq)@),
        submission_wf(submission),
    ensures
        counters_wf(final(seq)@),
        guild_id is None ==> r == Err::<DispatchPlan, Error>(Error::MissingGuildContext)
            && final(seq)@ == old(seq)@,
        guild_id matches Some(g) ==> !fits_store_id(g) ==> r == Err::<DispatchPlan, Error>(
            Error::ConversionError,
        ) && final(seq)@ == old(seq)@,
        guild_id matches Some(g) ==> fits_store_id(g) ==> match spec_allocate(old(seq)@, g as i64) {
            Err(e) => r == Err::<DispatchPlan, Error>(e) && final(seq)@ == old(seq)@,
            Ok(next) => {
                &&& final(seq)@ == next.0
                &&& r is Ok
                &&& ({
                    let p = r->Ok_0;
                    &&& p.ticket_id == next.1
                    &&& p.submitter_id == submitter_id
                    &&& p.threads@.len() == channels@.len()
                    &&& (forall|i: int|
                        0 <= i < channels@.len() ==> (#[trigger] p.threads@[i]).channel_id
                            == channels@[i])
                    &&& (forall|i: int|
                        0 <= i < channels@.len() ==> (#[trigger] p.threads@[i]).title@ == title_of(
                            next.1 as int,
                            submitter_name@,
                            submission.issue@,
                        ))
                    &&& p.role_ids@ == role_ids@
                    &&& p.issue == submission.issue
                    &&& p.version == submission.version
                    &&& p.additional == submission.additional
                })
            },
        },
{
    let g = match guild_id {
        Some(g) => g,
        None => { return Err(Error::MissingGuildContext) },
    };
    let ticket_id = match seq.allocate_next_ticket_id(g) {
        Ok(t) => t,
        Err(e) => { return Err(e) },
    };
    let title = build_thread_title(ticket_id, submitter_name, submission.issue.as_str());
    let mut threads: Vec<ThreadRequest> = Vec::new();
    let mut i: usize = 0;
    while i < channels.len()
        invariant
            i <= channels@.len(),
            threads@.len() == i,
            forall|k: int|
                0 <= k < i ==> (#[trigger] threads@[k]).channel_id == channels@[k],
            forall|k: int| 0 <= k < i ==> (#[trigger] threads@[k]).title@ == title@,
        decreases channels@.len() - i,
    {
        threads.push(ThreadRequest { channel_id: channels[i], title: title.clone() });
        i += 1;
    }
    Ok(
        DispatchPlan {
            ticket_id,
            submitter_id,
            threads,
            role_ids,
            issue: submission.issue,
            version: submission.version,
            additional: submission.additional,
        },
    )
}

/// How many channels of a fan-out got their thread, counted over the
/// per-channel outcome flags.
pub open spec fn count_true(s: Seq<bool>) -> int
    decreases s.len(),
{
    if s.len() == 0 {
        0
    } else {
        count_true(s.drop_last()) + if s.last() {
            1int
        } else {
            0int
        }
    }
}

/// The per-channel outcome summary of one fan-out: every planned
/// channel was attempted, and the counts say how many threads were
/// created and how many channels failed.
#[derive(Debug)]
pub struct FanoutReport {
    pub created: usize,
    pub failed: usize,
}

/// Folds the per-channel outcomes of a performed fan-out — one flag
/// per planned thread, true where the thread was created — into a
/// report. Every entry is counted: a failed channel only shows in the
/// counts, it never hides the attempts on its siblings.
pub fn settle_fanout(results: &Vec<bool>) -> (r: FanoutReport)
    ensures
        r.created == count_true(results@),
        r.created + r.failed == results@.len(),
{
    let mut created: usize = 0;
    let mut i: usize = 0;
    while i < results.len()
        invariant
            i <= results@.len(),
            created <= i,
            created == count_true(results@.take(i as int)),
        decreases results@.len() - i,
    {
        proof {
            assert(results@.take(i as int + 1).drop_last() =~= results@.take(i as int));
            assert(results@.take(i as int + 1).last() == results@[i as int]);
        }
        if results[i] {
            created += 1;
        }
        i += 1;
    }
    proof {
        assert(results@.take(results@.len() as int) =~= results@);
    }
    FanoutReport { created, failed: results.len() - created }
}

impl FanoutReport {
    /// The overall result the dispatcher reports: success only when
    /// every channel's thread was created; any failed channel
    /// surfaces as a messaging failure, after every sibling was still
    /// attempted.
    pub fn outcome(&self) -> (r: Result<(), Error>)
        ensures
            r is Ok <==> self.failed == 0,
            r is Err ==> r == Err::<(), Error>(Error::MessagingFailure),
    {
        if self.failed == 0 {
            Ok(())
        } else {
            Err(Error::MessagingFailure)
        }
    }
}

} // verus!
