//! The lines that a run prints. Each is a single line: it holds no newline,
//! so that lines written whole under one lock never interleave.

use vstd::prelude::*;

use crate::args::Commands;
use crate::error::ActionError;
use crate::run::{Outcome, Run, SkipReason, TaskState};
use crate::text::{first_line, is_line_cut, is_segment};

verus! {

/// The widest diagnostic that a failure line carries.
pub const DIAGNOSTIC_WIDTH: usize = 200;

/// The text holds no newline.
pub open spec fn no_newline(s: Seq<char>) -> bool {
    forall|j: int| 0 <= j < s.len() ==> #[trigger] s[j] != '\n'
}

proof fn lemma_concat_no_newline(a: Seq<char>, b: Seq<char>)
    requires
        no_newline(a),
        no_newline(b),
    ensures
        no_newline(a + b),
{
    assert forall|j: int| 0 <= j < (a + b).len() implies #[trigger] (a + b)[j] != '\n' by {
        if j < a.len() {
            assert((a + b)[j] == a[j]);
        } else {
            assert((a + b)[j] == b[j - a.len()]);
        }
    }
}

/// The digits of `n` in base ten.
pub open spec fn decimal_of(n: nat) -> Seq<char>
    decreases n,
{
    if n < 10 {
        seq![digit_char(n)]
    } else {
        decimal_of(n / 10) + seq![digit_char(n % 10)]
    }
}

/// The digit for `d < 10`.
pub open spec fn digit_char(d: nat) -> char {
    ((d + '0' as nat) as u32) as char
}

fn digit_text(d: usize) -> (r: String)
    requires
        d < 10,
    ensures
        r@ == seq![digit_char(d as nat)],
{
    let s = match d {
        0 => "0",
        1 => "1",
        2 => "2",
        3 => "3",
        4 => "4",
        5 => "5",
        6 => "6",
        7 => "7",
        8 => "8",
        _ => "9",
    };
    proof {
        reveal_strlit("0");
        reveal_strlit("1");
        reveal_strlit("2");
        reveal_strlit("3");
        reveal_strlit("4");
        reveal_strlit("5");
        reveal_strlit("6");
        reveal_strlit("7");
        reveal_strlit("8");
        reveal_strlit("9");
    }
    let r = String::from_str(s);
    assert(r@ =~= seq![digit_char(d as nat)]);
    r
}

/// `n` written in base ten.
pub fn decimal(n: usize) -> (r: String)
    ensures
        r@ == decimal_of(n as nat),
    decreases n,
{
    if n < 10 {
        digit_text(n)
    } else {
        let head = decimal(n / 10);
        let tail = digit_text(n % 10);
        let r = head.concat(tail.as_str());
        r
    }
}

/// `owner/repo`.
pub open spec fn label_of(owner: Seq<char>, repo: Seq<char>) -> Seq<char> {
    owner + "/"@ + repo
}

/// What went wrong in an action, in words.
pub open spec fn describe_of(e: ActionError) -> Seq<char> {
    match e {
        ActionError::ChildSpawnFailed => "could not start git"@,
        ActionError::ChildNonZero { exit, stderr } => "git failed: "@ + stderr@,
        ActionError::ChildSignalled => "git was ended by a signal"@,
        ActionError::Timeout => "timed out"@,
        ActionError::Filesystem(m) => m@,
    }
}

impl ActionError {
    /// What went wrong, in words.
    pub fn describe(&self) -> (r: String)
        ensures
            r@ == describe_of(*self),
    {
        match self {
            ActionError::ChildSpawnFailed => String::from_str("could not start git"),
            ActionError::ChildNonZero { exit, stderr } => String::from_str("git failed: ").concat(
                stderr.as_str(),
            ),
            ActionError::ChildSignalled => String::from_str("git was ended by a signal"),
            ActionError::Timeout => String::from_str("timed out"),
            ActionError::Filesystem(m) => m.clone(),
        }
    }
}

/// The word that opens the line of a successful action under `verb`.
pub open spec fn done_word(verb: Commands) -> Seq<char> {
    match verb {
        Commands::Install | Commands::Init => "installed: "@,
        Commands::Update => "updated: "@,
        Commands::Clean => "removed: "@,
    }
}

proof fn lemma_words_single_line()
    ensures
        no_newline("installed: "@),
        no_newline("updated: "@),
        no_newline("removed: "@),
        no_newline("skipped: "@),
        no_newline("cancelled: "@),
        no_newline(": "@),
        no_newline("/"@),
{
    reveal_strlit("installed: ");
    reveal_strlit("updated: ");
    reveal_strlit("removed: ");
    reveal_strlit("skipped: ");
    reveal_strlit("cancelled: ");
    reveal_strlit(": ");
    reveal_strlit("/");
}

proof fn lemma_segment_single_line(s: Seq<char>)
    requires
        is_segment(s),
    ensures
        no_newline(s),
{
    assert forall|j: int| 0 <= j < s.len() implies #[trigger] s[j] != '\n' by {
        assert(!crate::text::is_space(s[j]));
    }
}

/// `owner/repo`, the name of a plugin in the lines of a run.
pub fn label(owner: &str, repo: &str) -> (r: String)
    ensures
        r@ == label_of(owner@, repo@),
        is_segment(owner@) && is_segment(repo@) ==> no_newline(r@),
{
    let r = String::from_str(owner).concat("/").concat(repo);
    proof {
        if is_segment(owner@) && is_segment(repo@) {
            lemma_words_single_line();
            lemma_segment_single_line(owner@);
            lemma_segment_single_line(repo@);
            lemma_concat_no_newline(owner@, "/"@);
            lemma_concat_no_newline(owner@ + "/"@, repo@);
        }
    }
    r
}

/// The line that reports how the action of `verb` on `owner/repo` ended:
/// `installed: owner/repo` (or `updated: `, `removed: `), `skipped: owner/repo`,
/// `cancelled: owner/repo`, or `owner/repo: ` followed by the first line of
/// the diagnostic, cut to `DIAGNOSTIC_WIDTH` characters.
pub fn outcome_line(verb: Commands, owner: &str, repo: &str, outcome: &Outcome) -> (r: String)
    ensures
        match *outcome {
            Outcome::Succeeded => r@ == done_word(verb) + label_of(owner@, repo@),
            Outcome::Skipped(SkipReason::UpToDate) => r@ == "skipped: "@ + label_of(owner@, repo@),
            Outcome::Skipped(SkipReason::Cancelled) => r@ == "cancelled: "@ + label_of(owner@, repo@),
            Outcome::Failed(e) => {
                let head = label_of(owner@, repo@) + ": "@;
                &&& r@.len() >= head.len()
                &&& r@.subrange(0, head.len() as int) == head
                &&& is_line_cut(describe_of(e), DIAGNOSTIC_WIDTH as nat, r@.subrange(head.len() as int, r@.len() as int))
            },
        },
        is_segment(owner@) && is_segment(repo@) ==> no_newline(r@),
{
    let name = label(owner, repo);
    proof {
        lemma_words_single_line();
    }
    match outcome {
        Outcome::Succeeded => {
            let word = match verb {
                Commands::Install | Commands::Init => "installed: ",
                Commands::Update => "updated: ",
                Commands::Clean => "removed: ",
            };
            let r = String::from_str(word).concat(name.as_str());
            proof {
                if is_segment(owner@) && is_segment(repo@) {
                    lemma_concat_no_newline(word@, name@);
                }
            }
            r
        },
        Outcome::Skipped(SkipReason::UpToDate) => {
            let r = String::from_str("skipped: ").concat(name.as_str());
            proof {
                if is_segment(owner@) && is_segment(repo@) {
                    lemma_concat_no_newline("skipped: "@, name@);
                }
            }
            r
        },
        Outcome::Skipped(SkipReason::Cancelled) => {
            let r = String::from_str("cancelled: ").concat(name.as_str());
            proof {
                if is_segment(owner@) && is_segment(repo@) {
                    lemma_concat_no_newline("cancelled: "@, name@);
                }
            }
            r
        },
        Outcome::Failed(e) => {
            let head = name.concat(": ");
            let diag = first_line(e.describe().as_str(), DIAGNOSTIC_WIDTH);
            let ghost h = head@;
            let r = head.concat(diag.as_str());
            assert(r@.subrange(0, h.len() as int) =~= h);
            assert(r@.subrange(h.len() as int, r@.len() as int) =~= diag@);
            proof {
                if is_segment(owner@) && is_segment(repo@) {
                    lemma_concat_no_newline(name@, ": "@);
                    lemma_concat_no_newline(h, diag@);
                }
            }
            r
        },
    }
}

/// How many actions of `tasks` succeeded, failed, and were skipped.
pub open spec fn tally(tasks: Seq<TaskState>) -> (nat, nat, nat)
    decreases tasks.len(),
{
    if tasks.len() == 0 {
        (0, 0, 0)
    } else {
        let (s, f, k) = tally(tasks.drop_last());
        match tasks.last() {
            TaskState::Done(Outcome::Succeeded) => (s + 1, f, k),
            TaskState::Done(Outcome::Failed(_)) => (s, f + 1, k),
            TaskState::Done(Outcome::Skipped(_)) => (s, f, k + 1),
            _ => (s, f, k),
        }
    }
}

/// How many actions of the run succeeded, failed, and were skipped.
pub fn counts(run: &Run) -> (r: (usize, usize, usize))
    ensures
        (r.0 as nat, r.1 as nat, r.2 as nat) == tally(run@.tasks),
{
    let n = run.len();
    let mut s: usize = 0;
    let mut f: usize = 0;
    let mut k: usize = 0;
    let mut i: usize = 0;
    while i < n
        invariant
            n == run@.tasks.len(),
            i <= n,
            (s as nat, f as nat, k as nat) == tally(run@.tasks.take(i as int)),
            s + f + k <= i,
        decreases n - i,
    {
        assert(run@.tasks.take(i + 1).drop_last() =~= run@.tasks.take(i as int));
        match run.task(i) {
            TaskState::Done(Outcome::Succeeded) => {
                s = s + 1;
            },
            TaskState::Done(Outcome::Failed(_)) => {
                f = f + 1;
            },
            TaskState::Done(Outcome::Skipped(_)) => {
                k = k + 1;
            },
            _ => {},
        }
        i = i + 1;
    }
    assert(run@.tasks.take(n as int) =~= run@.tasks);
    (s, f, k)
}

/// `succeeded: S, failed: F, skipped: K`.
pub open spec fn summary_of(t: (nat, nat, nat)) -> Seq<char> {
    "succeeded: "@ + decimal_of(t.0) + ", failed: "@ + decimal_of(t.1) + ", skipped: "@
        + decimal_of(t.2)
}

proof fn lemma_decimal_single_line(n: nat)
    ensures
        no_newline(decimal_of(n)),
    decreases n,
{
    if n < 10 {
        assert(decimal_of(n)[0] == digit_char(n));
    } else {
        lemma_decimal_single_line(n / 10);
        assert(no_newline(seq![digit_char(n % 10)]));
        lemma_concat_no_newline(decimal_of(n / 10), seq![digit_char(n % 10)]);
    }
}

/// The closing line of a run: how many actions succeeded, failed, and were skipped.
pub fn summary_line(run: &Run) -> (r: String)
    ensures
        r@ == summary_of(tally(run@.tasks)),
        no_newline(r@),
{
    let (s, f, k) = counts(run);
    let r = String::from_str("succeeded: ").concat(decimal(s).as_str()).concat(", failed: ").concat(
        decimal(f).as_str(),
    ).concat(", skipped: ").concat(decimal(k).as_str());
    proof {
        reveal_strlit("succeeded: ");
        reveal_strlit(", failed: ");
        reveal_strlit(", skipped: ");
        lemma_decimal_single_line(s as nat);
        lemma_decimal_single_line(f as nat);
        lemma_decimal_single_line(k as nat);
        let a = "succeeded: "@ + decimal_of(s as nat);
        lemma_concat_no_newline("succeeded: "@, decimal_of(s as nat));
        lemma_concat_no_newline(a, ", failed: "@);
        let b = a + ", failed: "@;
        lemma_concat_no_newline(b, decimal_of(f as nat));
        let c = b + decimal_of(f as nat);
        lemma_concat_no_newline(c, ", skipped: "@);
        lemma_concat_no_newline(c + ", skipped: "@, decimal_of(k as nat));
    }
    r
}

} // verus!
