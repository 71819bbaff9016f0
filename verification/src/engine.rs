//! The execution engine: for each catalog entry, in catalog order, decide
//! whether it runs, build its wrapped process invocation, name its output
//! file, and render its audit-log line.  The unverified shell spawns the
//! processes; every decision is made here.

use vstd::prelude::*;
use crate::catalog::Cmd;
use crate::catalog::catalog_views;
use crate::catalog::CmdView;
use crate::catalog::SkipFlag;
use crate::config::BundleView;
use crate::config::Options;
use crate::config::is_true;
use crate::render::audit_line;
use crate::render::audit_line_spec;
use crate::render::format_args;
use crate::render::format_command;
use crate::render::formatted_args_spec;
use crate::render::resolved_command_spec;
use crate::text::split_whitespace_str;
use crate::text::split_ws_spec;
use crate::text::str_eq;

verus! {

/// Mathematical view of a process invocation.
pub ghost struct InvocationView {
    pub program: Seq<char>,
    pub args: Seq<Seq<char>>,
}

/// A fully resolved process invocation: program name and argument list,
/// wrapping included.
pub struct Invocation {
    pub program: String,
    pub args: Vec<String>,
}

impl View for Invocation {
    type V = InvocationView;

    open spec fn view(&self) -> InvocationView {
        InvocationView { program: self.program@, args: self.args.deep_view() }
    }
}

/// The bundle value that a skip flag names.
pub open spec fn flag_value(o: BundleView, f: SkipFlag) -> Seq<char> {
    match f {
        SkipFlag::SkipStat => o.skip_stat,
        SkipFlag::SkipSudo => o.skip_sudo,
        SkipFlag::SkipDse => o.skip_dse,
        SkipFlag::NoNodesyncrate => o.no_nodesyncrate,
    }
}

/// Some skip flag of the entry resolves to the literal "true".
pub open spec fn skip_requested(c: CmdView, o: BundleView) -> bool {
    exists|k: int| 0 <= k < c.skip_flags.len() && is_true(flag_value(o, c.skip_flags[k]))
}

/// A mandatory entry is always eligible; an optional one only when its
/// executable was found.
pub open spec fn eligible(c: CmdView, available: bool) -> bool {
    !c.optional || available
}

/// The entry is invoked: eligible and not skipped.
pub open spec fn runs(c: CmdView, o: BundleView, available: bool) -> bool {
    eligible(c, available) && !skip_requested(c, o)
}

/// A failure of the entry aborts the whole run.
pub open spec fn failure_fatal(c: CmdView) -> bool {
    !c.optional
}

/// The timeout utility and its option words, when the entry asks for a
/// timeout bound.
pub open spec fn timeout_prefix_spec(c: CmdView, o: BundleView) -> Seq<Seq<char>> {
    if c.use_timeout {
        seq!["timeout"@] + split_ws_spec(o.timeout_opts)
    } else {
        Seq::empty()
    }
}

/// Wrapping policy around a base program and its argument words: privilege
/// escalation outermost when requested and not suppressed, then the timeout
/// utility, then the base program.
pub open spec fn wrapped_invocation_spec(
    c: CmdView,
    o: BundleView,
    base: Seq<char>,
    extra: Seq<Seq<char>>,
) -> InvocationView {
    if c.use_sudo && !is_true(o.skip_sudo) {
        InvocationView {
            program: "sudo"@,
            args: timeout_prefix_spec(c, o) + seq![base] + extra,
        }
    } else if c.use_timeout {
        InvocationView {
            program: "timeout"@,
            args: split_ws_spec(o.timeout_opts) + seq![base] + extra,
        }
    } else {
        InvocationView { program: base, args: extra }
    }
}

/// The invocation of a catalog entry: its resolved executable, wrapped per
/// its flags, followed by its unmasked argument words.
pub open spec fn invocation_spec(c: CmdView, o: BundleView) -> InvocationView {
    wrapped_invocation_spec(
        c,
        o,
        resolved_command_spec(c.command, o),
        split_ws_spec(formatted_args_spec(c.args, o, false)),
    )
}

/// The artifact-relative output file joined onto the artifact directory.
pub open spec fn output_path_spec(o: BundleView, file: Seq<char>) -> Seq<char> {
    o.artifact_dir + "/"@ + file
}

/// Where the append-only audit log lives.
pub open spec fn audit_log_path_spec(o: BundleView) -> Seq<char> {
    o.artifact_dir + "/collect-info.audit.log"@
}

fn push_all(dst: &mut Vec<String>, src: &Vec<String>)
    ensures
        final(dst).deep_view() == old(dst).deep_view() + src.deep_view(),
{
    let ghost orig = dst.deep_view();
    let mut i: usize = 0;
    proof {
        assert(orig + src.deep_view().take(0) =~= orig);
    }
    while i < src.len()
        invariant
            i <= src@.len(),
            dst.deep_view() == orig + src.deep_view().take(i as int),
        decreases src@.len() - i,
    {
        let ghost prev = dst.deep_view();
        let s: String = src[i].clone();
        dst.push(s);
        proof {
            assert(dst.deep_view() =~= prev.push(src@[i as int]@));
            assert(prev.push(src@[i as int]@) =~= orig + src.deep_view().take(i + 1));
        }
        i += 1;
    }
    proof {
        assert(src.deep_view().take(src@.len() as int) =~= src.deep_view());
    }
}

/// Wraps a base program and extra argument words with the entry's
/// privilege-escalation and timeout declarations.
pub(crate) fn wrap_command(cmd: &Cmd, options: &Options, base: String, extra: Vec<String>) -> (inv:
    Invocation)
    ensures
        inv@ == wrapped_invocation_spec(cmd@, options@, base@, extra.deep_view()),
{
    if cmd.use_sudo && !str_eq(options.skip_sudo.as_str(), "true") {
        let mut args: Vec<String> = Vec::new();
        proof {
            assert(args.deep_view() =~= Seq::<Seq<char>>::empty());
        }
        if cmd.use_timeout {
            let ghost before = args.deep_view();
            args.push(String::from_str("timeout"));
            proof {
                assert(args.deep_view() =~= before.push("timeout"@));
                assert(before.push("timeout"@) =~= seq!["timeout"@]);
            }
            let topts = split_whitespace_str(options.timeout_opts.as_str());
            push_all(&mut args, &topts);
        }
        proof {
            assert(args.deep_view() =~= timeout_prefix_spec(cmd@, options@));
        }
        let ghost mid = args.deep_view();
        args.push(base);
        proof {
            assert(args.deep_view() =~= mid.push(base@));
        }
        push_all(&mut args, &extra);
        proof {
            assert(mid.push(base@) + extra.deep_view() =~= timeout_prefix_spec(cmd@, options@)
                + seq![base@] + extra.deep_view());
        }
        Invocation { program: String::from_str("sudo"), args }
    } else if cmd.use_timeout {
        let mut args = split_whitespace_str(options.timeout_opts.as_str());
        let ghost mid = args.deep_view();
        args.push(base);
        proof {
            assert(args.deep_view() =~= mid.push(base@));
        }
        push_all(&mut args, &extra);
        proof {
            assert(mid.push(base@) + extra.deep_view() =~= split_ws_spec(options@.timeout_opts)
                + seq![base@] + extra.deep_view());
        }
        Invocation { program: String::from_str("timeout"), args }
    } else {
        Invocation { program: base, args: extra }
    }
}

fn flag_value_of<'a>(options: &'a Options, f: SkipFlag) -> (r: &'a String)
    ensures
        r@ == flag_value(options@, f),
{
    match f {
        SkipFlag::SkipStat => &options.skip_stat,
        SkipFlag::SkipSudo => &options.skip_sudo,
        SkipFlag::SkipDse => &options.skip_dse,
        SkipFlag::NoNodesyncrate => &options.no_nodesyncrate,
    }
}

/// Whether any of the entry's skip flags resolves to the literal "true" in
/// the bundle.
pub fn should_skip_command(cmd: &Cmd, options: &Options) -> (r: bool)
    ensures
        r == skip_requested(cmd@, options@),
{
    let mut k: usize = 0;
    let mut skip = false;
    while k < cmd.skip_flags.len()
        invariant
            k <= cmd@.skip_flags.len(),
            skip == exists|j: int|
                0 <= j < k && is_true(flag_value(options@, cmd@.skip_flags[j])),
        decreases cmd@.skip_flags.len() - k,
    {
        let v = flag_value_of(options, cmd.skip_flags[k]);
        if str_eq(v.as_str(), "true") {
            skip = true;
        }
        k += 1;
    }
    skip
}

/// What the engine decides for one catalog entry.
pub enum Action {
    /// Optional and its executable was not found: reported, not invoked.
    NotEligible,
    /// A skip flag resolved to "true": reported, not invoked, not audited.
    Skipped,
    /// Invoked: audit the line, then spawn the invocation, redirecting the
    /// chosen stream to the output file when one is declared.
    Run { invocation: Invocation, audit: String, output: Option<OutputFile> },
}

/// Destination of a running entry's captured stream.
pub struct OutputFile {
    /// Full path of the output file under the artifact directory.
    pub path: String,
    /// Capture standard output when true, standard error otherwise.
    pub use_stdout: bool,
}

/// Decides one catalog entry, in the order the engine observes: eligibility
/// first, then the skip flags, then the audited invocation.
pub fn entry_action(cmd: &Cmd, options: &Options, available: bool) -> (a: Action)
    requires
        cmd@.wf(),
    ensures
        !eligible(cmd@, available) ==> (a is NotEligible),
        eligible(cmd@, available) && skip_requested(cmd@, options@) ==> (a is Skipped),
        runs(cmd@, options@, available) ==> (a matches Action::Run { invocation, audit, output }
            && invocation@ == invocation_spec(cmd@, options@)
            && audit@ == audit_line_spec(cmd@, options@)
            && (match output {
                Option::Some(f) => cmd@.file.len() > 0 && f.path@ == output_path_spec(
                    options@,
                    cmd@.file,
                ) && f.use_stdout == cmd@.use_stdout,
                Option::None => cmd@.file.len() == 0,
            })),
{
    if cmd.optional && !available {
        return Action::NotEligible;
    }
    if should_skip_command(cmd, options) {
        return Action::Skipped;
    }
    let base = format_command(cmd.command.as_str(), options);
    let unmasked = format_args(cmd.args.as_str(), options, false);
    let extra = split_whitespace_str(unmasked.as_str());
    let invocation = wrap_command(cmd, options, base, extra);
    let audit = audit_line(cmd, options);
    let output = if cmd.file.as_str().unicode_len() > 0 {
        let mut p = String::new();
        p.append(options.artifact_dir.as_str());
        p.append("/");
        p.append(cmd.file.as_str());
        Option::Some(OutputFile { path: p, use_stdout: cmd.use_stdout })
    } else {
        Option::None
    };
    Action::Run { invocation, audit, output }
}

/// Whether the run goes on after an entry's invocation reported back.
pub enum RunControl {
    /// Proceed to the next catalog entry.
    Continue,
    /// Fatal: stop the run, no further entry is attempted.
    Abort,
}

/// Failure policy after an entry was invoked: a failed mandatory entry
/// aborts the run; anything else continues.
pub fn after_execution(cmd: &Cmd, success: bool) -> (r: RunControl)
    ensures
        (r is Abort) <==> (!success && failure_fatal(cmd@)),
{
    if !success && !cmd.optional {
        RunControl::Abort
    } else {
        RunControl::Continue
    }
}

/// Full path of the audit-log file.
pub fn audit_log_path(options: &Options) -> (r: String)
    ensures
        r@ == audit_log_path_spec(options@),
{
    let mut p = String::new();
    p.append(options.artifact_dir.as_str());
    p.append("/collect-info.audit.log");
    p
}

/// The whole audit log of a run: one line per entry that runs, in catalog
/// order, given per-entry availability.
pub open spec fn audit_log_spec(cs: Seq<CmdView>, o: BundleView, avail: Seq<bool>) -> Seq<
    char,
>
    decreases cs.len(),
{
    if cs.len() == 0 {
        Seq::empty()
    } else {
        audit_log_spec(cs.drop_last(), o, avail.drop_last()) + (if runs(
            cs.last(),
            o,
            avail.last(),
        ) {
            audit_line_spec(cs.last(), o)
        } else {
            Seq::<char>::empty()
        })
    }
}

/// Renders the complete audit log for a catalog and per-entry availability.
pub fn audit_log(catalog: &Vec<Cmd>, options: &Options, available: &Vec<bool>) -> (r: String)
    requires
        available@.len() == catalog@.len(),
    ensures
        r@ == audit_log_spec(catalog_views(catalog@), options@, available@),
{
    let mut out = String::new();
    let mut i: usize = 0;
    proof {
        assert(catalog_views(catalog@.take(0)) =~= Seq::<CmdView>::empty());
    }
    while i < catalog.len()
        invariant
            available@.len() == catalog@.len(),
            i <= catalog@.len(),
            out@ == audit_log_spec(
                catalog_views(catalog@.take(i as int)),
                options@,
                available@.take(i as int),
            ),
        decreases catalog@.len() - i,
    {
        let ghost prev = out@;
        let c = &catalog[i];
        let runs_now = (!c.optional || available[i]) && !should_skip_command(c, options);
        if runs_now {
            let line = audit_line(c, options);
            out.append(line.as_str());
        }
        proof {
            let cs1 = catalog_views(catalog@.take(i + 1));
            assert(cs1.drop_last() =~= catalog_views(catalog@.take(i as int)));
            assert(available@.take(i + 1).drop_last() =~= available@.take(i as int));
            assert(cs1.last() == catalog@[i as int]@);
            assert(available@.take(i + 1).last() == available@[i as int]);
            if !runs_now {
                assert(out@ =~= prev + Seq::<char>::empty());
            }
        }
        i += 1;
    }
    proof {
        assert(catalog@.take(catalog@.len() as int) =~= catalog@);
        assert(available@.take(available@.len() as int) =~= available@);
    }
    out
}

/// A mandatory entry that is not skipped appears in the execution pass even
/// when its executable was not found, and its failure there is fatal: the
/// run aborts rather than silently continuing.
pub proof fn lemma_mandatory_entry_runs_and_aborts(c: CmdView, o: BundleView, available: bool)
    requires
        !c.optional,
        !skip_requested(c, o),
    ensures
        runs(c, o, available),
        failure_fatal(c),
{
}

/// An entry with any skip flag resolving to "true" never runs, whatever its
/// optional/mandatory status and availability, and appending it to a run
/// leaves the audit log unchanged: no audit line is produced for it.
pub proof fn lemma_skipped_entry_leaves_no_trace(
    cs: Seq<CmdView>,
    o: BundleView,
    avail: Seq<bool>,
    c: CmdView,
    available: bool,
)
    requires
        skip_requested(c, o),
    ensures
        !runs(c, o, available),
        audit_log_spec(cs.push(c), o, avail.push(available)) == audit_log_spec(cs, o, avail),
{
    assert(cs.push(c).drop_last() =~= cs);
    assert(avail.push(available).drop_last() =~= avail);
    assert(cs.push(c).last() == c);
    assert(audit_log_spec(cs.push(c), o, avail.push(available)) =~= audit_log_spec(
        cs,
        o,
        avail,
    ));
}

/// The audit log is a function of catalog, bundle and availability alone:
/// two runs over the same inputs produce byte-identical audit logs.
pub proof fn lemma_audit_log_deterministic(
    cs1: Seq<CmdView>,
    o1: BundleView,
    a1: Seq<bool>,
    cs2: Seq<CmdView>,
    o2: BundleView,
    a2: Seq<bool>,
)
    requires
        cs1 == cs2,
        o1 == o2,
        a1 == a2,
    ensures
        audit_log_spec(cs1, o1, a1) == audit_log_spec(cs2, o2, a2),
{
}

} // verus!
