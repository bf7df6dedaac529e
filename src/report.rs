//! Per-command comparisons, the report that gathers them, its equality and
//! its textual summary.

use vstd::prelude::*;
use crate::config::Config;
use crate::diff::{enrich_diff_htmlf, line_changes_of, marked_lines, texts};
use crate::execution::CommandExecution;

verus! {

/// A point in time: whole seconds since the Unix epoch and the nanoseconds
/// past them.
#[derive(Clone, Copy, PartialEq, Eq, Structural, Debug)]
pub struct Timestamp {
    pub secs: i64,
    pub nanos: u32,
}

/// Relies on `chrono::Utc::now`: the current time. Nothing is known of it.
#[verifier::external_body]
fn now() -> (r: Timestamp) {
    let t = chrono::Utc::now();
    Timestamp { secs: t.timestamp(), nanos: t.timestamp_subsec_nanos() }
}

/// `d` is the diff artifact of `a` against `b`: nothing when they are equal,
/// their marked-up line diff otherwise.
pub open spec fn diff_of(a: Seq<char>, b: Seq<char>, d: Option<Vec<String>>) -> bool {
    if a == b {
        d is None
    } else {
        d matches Some(lines) && texts(lines@) == marked_lines(line_changes_of(a, b))
    }
}

/// One command's two executions, with the diffs of their outputs.
pub struct CommandComparison {
    pub name: String,
    pub diff_stdout: Option<Vec<String>>,
    pub diff_stderr: Option<Vec<String>>,
    pub ce1: CommandExecution,
    pub ce2: CommandExecution,
}

impl CommandComparison {
    /// Equality of comparisons: same command name and both executions
    /// equal; the diffs are not compared.
    pub open spec fn same_spec(&self, o: &CommandComparison) -> bool {
        self.name@ == o.name@ && self.ce1.same_spec(&o.ce1) && self.ce2.same_spec(&o.ce2)
    }

    /// Both binaries behaved alike on this command.
    pub open spec fn is_ok(&self) -> bool {
        self.ce1.same_behavior(&self.ce2)
    }

    /// The diff fields are those of the two executions' outputs.
    pub open spec fn diffs_hold(&self) -> bool {
        diff_of(self.ce1.stdout@, self.ce2.stdout@, self.diff_stdout) && diff_of(
            self.ce1.stderr@,
            self.ce2.stderr@,
            self.diff_stderr,
        )
    }

    /// The comparison of a command's two executions, with the diffs of
    /// their standard output and standard error.
    pub fn new(name: String, ce1: CommandExecution, ce2: CommandExecution) -> (r:
        CommandComparison)
        ensures
            r.name@ == name@,
            r.ce1 == ce1,
            r.ce2 == ce2,
            r.diffs_hold(),
    {
        let diff_stdout = enrich_diff_htmlf(&ce1.stdout, &ce2.stdout);
        let diff_stderr = enrich_diff_htmlf(&ce1.stderr, &ce2.stderr);
        CommandComparison { name, diff_stdout, diff_stderr, ce1, ce2 }
    }
}

impl PartialEq for CommandComparison {
    fn eq(&self, other: &CommandComparison) -> (r: bool) {
        self.name == other.name && self.ce1 == other.ce1 && self.ce2 == other.ce2
    }
}

impl vstd::std_specs::cmp::PartialEqSpecImpl for CommandComparison {
    open spec fn obeys_eq_spec() -> bool {
        true
    }

    open spec fn eq_spec(&self, o: &CommandComparison) -> bool {
        self.same_spec(o)
    }
}

/// The comparisons of all configured commands, in order, and when they
/// were made.
pub struct Report {
    pub timestamp: Timestamp,
    pub command_comparisons: Vec<CommandComparison>,
}

impl Report {
    /// Equality of reports: as many comparisons, pairwise equal; the
    /// timestamps are not compared.
    pub open spec fn same_spec(&self, o: &Report) -> bool {
        &&& self.command_comparisons@.len() == o.command_comparisons@.len()
        &&& forall|i: int|
            0 <= i < self.command_comparisons@.len() ==> #[trigger] self.command_comparisons@[i].same_spec(
                &o.command_comparisons@[i],
            )
    }
}

impl PartialEq for Report {
    fn eq(&self, other: &Report) -> (r: bool) {
        if self.command_comparisons.len() != other.command_comparisons.len() {
            return false;
        }
        let mut i: usize = 0;
        while i < self.command_comparisons.len()
            invariant
                i <= self.command_comparisons@.len(),
                self.command_comparisons@.len() == other.command_comparisons@.len(),
                forall|j: int|
                    0 <= j < i ==> #[trigger] self.command_comparisons@[j].same_spec(
                        &other.command_comparisons@[j],
                    ),
            decreases self.command_comparisons@.len() - i,
        {
            if !(self.command_comparisons[i] == other.command_comparisons[i]) {
                return false;
            }
            i = i + 1;
        }
        true
    }
}

impl vstd::std_specs::cmp::PartialEqSpecImpl for Report {
    open spec fn obeys_eq_spec() -> bool {
        true
    }

    open spec fn eq_spec(&self, o: &Report) -> bool {
        self.same_spec(o)
    }
}

/// Report equality is reflexive and symmetric, and holds of two reports whose
/// comparisons have the same names and equal executions pairwise, whatever
/// their timestamps and diffs.
pub proof fn lemma_report_equality(a: Report, b: Report)
    ensures
        a.same_spec(&a),
        a.same_spec(&b) == b.same_spec(&a),
        a.command_comparisons@.len() == b.command_comparisons@.len() && (forall|i: int|
            0 <= i < a.command_comparisons@.len() ==> a.command_comparisons@[i].name@
                == b.command_comparisons@[i].name@ && a.command_comparisons@[i].ce1.same_spec(
                &b.command_comparisons@[i].ce1,
            ) && a.command_comparisons@[i].ce2.same_spec(&b.command_comparisons@[i].ce2))
            ==> a.same_spec(&b),
{
    if b.same_spec(&a) {
        assert forall|i: int| 0 <= i < a.command_comparisons@.len() implies #[trigger] a.command_comparisons@[i].same_spec(
            &b.command_comparisons@[i],
        ) by {
            assert(b.command_comparisons@[i].same_spec(&a.command_comparisons@[i]));
        }
    }
    if a.same_spec(&b) {
        assert forall|i: int| 0 <= i < b.command_comparisons@.len() implies #[trigger] b.command_comparisons@[i].same_spec(
            &a.command_comparisons@[i],
        ) by {
            assert(a.command_comparisons@[i].same_spec(&b.command_comparisons@[i]));
        }
    }
}

/// The report of the commands of `config` run against both binaries, given
/// the two executions of each command in order.
pub fn run_at(
    config: &Config,
    timestamp: Timestamp,
    runs: Vec<(CommandExecution, CommandExecution)>,
) -> (r: Report)
    requires
        runs@.len() == config.commands@.len(),
    ensures
        r.timestamp == timestamp,
        r.command_comparisons@.len() == config.commands@.len(),
        forall|i: int|
            0 <= i < config.commands@.len() ==> {
                let c = #[trigger] r.command_comparisons@[i];
                &&& c.name@ == config.commands@[i].name@
                &&& c.ce1 == runs@[i].0
                &&& c.ce2 == runs@[i].1
                &&& c.diffs_hold()
            },
{
    let ghost all = runs@;
    let mut rest = runs;
    let mut comparisons: Vec<CommandComparison> = Vec::new();
    let mut i: usize = 0;
    while i < config.commands.len()
        invariant
            i <= config.commands@.len(),
            all.len() == config.commands@.len(),
            rest@ == all.subrange(i as int, all.len() as int),
            comparisons@.len() == i,
            forall|j: int|
                0 <= j < i ==> {
                    let c = #[trigger] comparisons@[j];
                    &&& c.name@ == config.commands@[j].name@
                    &&& c.ce1 == all[j].0
                    &&& c.ce2 == all[j].1
                    &&& c.diffs_hold()
                },
        decreases config.commands@.len() - i,
    {
        let (ce1, ce2) = rest.remove(0);
        let c = CommandComparison::new(config.commands[i].name.clone(), ce1, ce2);
        comparisons.push(c);
        proof {
            assert(rest@ =~= all.subrange(i + 1, all.len() as int));
        }
        i = i + 1;
    }
    Report { timestamp, command_comparisons: comparisons }
}

/// The report of the commands of `config` run against both binaries, given
/// the two executions of each command in order, stamped with the current
/// time.
pub fn run(config: &Config, runs: Vec<(CommandExecution, CommandExecution)>) -> (r: Report)
    requires
        runs@.len() == config.commands@.len(),
    ensures
        r.command_comparisons@.len() == config.commands@.len(),
        forall|i: int|
            0 <= i < config.commands@.len() ==> {
                let c = #[trigger] r.command_comparisons@[i];
                &&& c.name@ == config.commands@[i].name@
                &&& c.ce1 == runs@[i].0
                &&& c.ce2 == runs@[i].1
                &&& c.diffs_hold()
            },
{
    run_at(config, now(), runs)
}

/// The text of a decimal digit.
pub open spec fn digit_text(d: nat) -> Seq<char> {
    if d == 0 {
        "0"@
    } else if d == 1 {
        "1"@
    } else if d == 2 {
        "2"@
    } else if d == 3 {
        "3"@
    } else if d == 4 {
        "4"@
    } else if d == 5 {
        "5"@
    } else if d == 6 {
        "6"@
    } else if d == 7 {
        "7"@
    } else if d == 8 {
        "8"@
    } else {
        "9"@
    }
}

/// The decimal notation of a number.
pub open spec fn decimal(n: nat) -> Seq<char>
    decreases n,
{
    if n < 10 {
        digit_text(n)
    } else {
        decimal(n / 10) + digit_text(n % 10)
    }
}

fn digit_str(d: usize) -> (r: &'static str)
    requires
        d < 10,
    ensures
        r@ == digit_text(d as nat),
{
    if d == 0 {
        "0"
    } else if d == 1 {
        "1"
    } else if d == 2 {
        "2"
    } else if d == 3 {
        "3"
    } else if d == 4 {
        "4"
    } else if d == 5 {
        "5"
    } else if d == 6 {
        "6"
    } else if d == 7 {
        "7"
    } else if d == 8 {
        "8"
    } else {
        "9"
    }
}

fn decimal_text(n: usize) -> (r: String)
    ensures
        r@ == decimal(n as nat),
    decreases n,
{
    if n < 10 {
        String::from_str(digit_str(n))
    } else {
        let mut r = decimal_text(n / 10);
        r.append(digit_str(n % 10));
        r
    }
}

/// A text quoted as Rust's debug formatting shows a string.
pub uninterp spec fn debug_quote_of(s: Seq<char>) -> Seq<char>;

/// Relies on the `Debug` formatting of `str`: the text in double quotes with
/// special characters escaped, which depends on the text alone.
#[verifier::external_body]
fn debug_quoted(s: &str) -> (r: String)
    ensures
        r@ == debug_quote_of(s@),
{
    format!("{:?}", s)
}

/// A styled text: the text itself, or the escape sequence of the style, the
/// text and the reset sequence.
pub open spec fn styled_or_plain(r: Seq<char>, s: Seq<char>, style: Seq<char>) -> bool {
    r == s || r == style + s + "\x1B[0m"@
}

/// True of a text without escape characters.
pub open spec fn no_escape(s: Seq<char>) -> bool {
    forall|i: int| 0 <= i < s.len() ==> s[i] != '\x1B'
}

/// Relies on `colored::Colorize` (`white`, `bold`, `underline`) and the
/// `Display` of its `ColoredString`: the text, plain or wrapped in the bold,
/// underlined, white style and the reset sequence as the process's terminal
/// settings decide.
#[verifier::external_body]
fn style_heading(s: &str) -> (r: String)
    requires
        no_escape(s@),
    ensures
        styled_or_plain(r@, s@, "\x1B[1;4;37m"@),
{
    colored::Colorize::underline(colored::Colorize::bold(colored::Colorize::white(s))).to_string()
}

/// Relies on `colored::Colorize::green` and the `Display` of its
/// `ColoredString`: the text, plain or wrapped in the green style and the
/// reset sequence as the process's terminal settings decide.
#[verifier::external_body]
fn style_green(s: &str) -> (r: String)
    requires
        no_escape(s@),
    ensures
        styled_or_plain(r@, s@, "\x1B[32m"@),
{
    colored::Colorize::green(s).to_string()
}

/// Relies on `colored::Colorize::red` and the `Display` of its
/// `ColoredString`: the text, plain or wrapped in the red style and the reset
/// sequence as the process's terminal settings decide.
#[verifier::external_body]
fn style_red(s: &str) -> (r: String)
    requires
        no_escape(s@),
    ensures
        styled_or_plain(r@, s@, "\x1B[31m"@),
{
    colored::Colorize::red(s).to_string()
}

/// The status token of a comparison: `ok` exactly when both executions
/// produced the same standard output, standard error and exit code.
pub open spec fn status_of(c: CommandComparison, ok: Seq<char>, failed: Seq<char>) -> Seq<char> {
    if c.is_ok() {
        ok
    } else {
        failed
    }
}

/// The summary line of one comparison.
pub open spec fn summary_line(c: CommandComparison, ok: Seq<char>, failed: Seq<char>) -> Seq<char> {
    "+ cmd "@ + debug_quote_of(c.name@) + " ... "@ + status_of(c, ok, failed) + "\n"@
}

/// The summary lines of the comparisons, in order.
pub open spec fn summary_lines(cs: Seq<CommandComparison>, ok: Seq<char>, failed: Seq<char>) -> Seq<
    char,
>
    decreases cs.len(),
{
    if cs.len() == 0 {
        Seq::empty()
    } else {
        summary_lines(cs.drop_last(), ok, failed) + summary_line(cs.last(), ok, failed)
    }
}

/// The whole summary: a heading with the number of comparisons, a blank
/// line, then one line per comparison.
pub open spec fn summary_text(
    cs: Seq<CommandComparison>,
    heading: Seq<char>,
    ok: Seq<char>,
    failed: Seq<char>,
) -> Seq<char> {
    heading + " ("@ + decimal(cs.len()) + " commands)\n\n"@ + summary_lines(cs, ok, failed)
}

/// A mismatch of exit codes alone makes a comparison fail.
pub proof fn lemma_retcode_mismatch_fails(c: CommandComparison, ok: Seq<char>, failed: Seq<char>)
    requires
        c.ce1.retcode != c.ce2.retcode,
    ensures
        status_of(c, ok, failed) == failed,
{
}

/// A comparison is ok exactly when standard output, standard error and exit
/// code all match, whatever its other fields hold.
pub proof fn lemma_status_ok(c: CommandComparison, ok: Seq<char>, failed: Seq<char>)
    requires
        ok != failed,
    ensures
        (status_of(c, ok, failed) == ok) <==> (c.ce1.stdout@ == c.ce2.stdout@ && c.ce1.stderr@
            == c.ce2.stderr@ && c.ce1.retcode == c.ce2.retcode),
{
}

impl Report {
    /// An empty report made at the given time.
    pub fn new(timestamp: Timestamp) -> (r: Report)
        ensures
            r.timestamp == timestamp,
            r.command_comparisons@.len() == 0,
    {
        Report { timestamp, command_comparisons: Vec::new() }
    }

    /// The summary with the given heading and status tokens.
    pub fn generate_summary_with(&self, heading: &str, ok: &str, failed: &str) -> (r: String)
        ensures
            r@ == summary_text(self.command_comparisons@, heading@, ok@, failed@),
    {
        let cs = &self.command_comparisons;
        let mut r = String::from_str(heading);
        r.append(" (");
        let n = decimal_text(cs.len());
        r.append(n.as_str());
        r.append(" commands)\n\n");
        let ghost head = r@;
        let mut i: usize = 0;
        while i < cs.len()
            invariant
                i <= cs@.len(),
                head == heading@ + " ("@ + decimal(cs@.len()) + " commands)\n\n"@,
                r@ == head + summary_lines(cs@.subrange(0, i as int), ok@, failed@),
            decreases cs@.len() - i,
        {
            let c = &cs[i];
            r.append("+ cmd ");
            let q = debug_quoted(c.name.as_str());
            r.append(q.as_str());
            r.append(" ... ");
            if c.ce1.stdout == c.ce2.stdout && c.ce1.stderr == c.ce2.stderr && c.ce1.retcode
                == c.ce2.retcode {
                r.append(ok);
            } else {
                r.append(failed);
            }
            r.append("\n");
            proof {
                let s = cs@.subrange(0, i + 1);
                assert(s.drop_last() =~= cs@.subrange(0, i as int));
                assert(s.last() == cs@[i as int]);
            }
            i = i + 1;
        }
        proof {
            assert(cs@.subrange(0, i as int) =~= cs@);
        }
        r
    }

    /// The summary: a styled heading with the number of comparisons, then
    /// for each comparison its name and `ok` or `FAILED`, styled in green or
    /// red.
    pub fn generate_summary(&self) -> (r: String)
        ensures
            exists|heading: Seq<char>, ok: Seq<char>, failed: Seq<char>|
                {
                    &&& r@ == summary_text(self.command_comparisons@, heading, ok, failed)
                    &&& styled_or_plain(heading, "Zia report summary"@, "\x1B[1;4;37m"@)
                    &&& styled_or_plain(ok, "ok"@, "\x1B[32m"@)
                    &&& styled_or_plain(failed, "FAILED"@, "\x1B[31m"@)
                },
    {
        proof {
            reveal_strlit("Zia report summary");
            reveal_strlit("ok");
            reveal_strlit("FAILED");
        }
        let heading = style_heading("Zia report summary");
        let ok = style_green("ok");
        let failed = style_red("FAILED");
        self.generate_summary_with(heading.as_str(), ok.as_str(), failed.as_str())
    }
}

} // verus!
