//! The batch orchestrator's policy: eager validation of the invocation,
//! selection and ordering of the files to process, per-file processing with
//! per-file configuration, and the aggregation of per-file outcomes into
//! one process-level result.
//!
//! Everything here is policy on plain values; the surrounding program does
//! the walking, reading and writing and hands the results in.

use vstd::prelude::*;
use vstd::string::StringExecFns;

use crate::compose::rule_document_spec;
use crate::config::first_present;
use crate::config::parsed_config_spec;
use crate::config::resolve_config;
use crate::engine::engine_result;
use crate::engine::format_with_config;
use crate::errors::FmtError;
use crate::style::FormatterConfig;
use crate::style::default_config;
use crate::text::elm_file_name;
use crate::text::is_elm_file_name;
use crate::text::space_chars;

verus! {

/// Where one invocation's output goes. The modes are mutually exclusive and
/// chosen once per invocation.
pub enum OutputMode {
    /// Write the formatted text to the standard output stream.
    Stdout,
    /// Write the formatted text to this file.
    ToFile(String),
    /// Rewrite each changed input file in place.
    InPlace,
    /// Report which files would change; write nothing.
    CheckOnly,
}

/// An invocation rejected before any file is touched.
#[derive(Debug, Clone, Copy, PartialEq, Eq, Structural)]
pub enum InvocationError {
    /// An explicit output file makes no sense for several targets.
    OutputWithMultipleTargets,
    /// Several targets need either in-place rewriting or check-only mode.
    MultiTargetNeedsMode,
}

impl InvocationError {
    /// A short description of the rejection.
    pub fn message(&self) -> String {
        match self {
            InvocationError::OutputWithMultipleTargets => "an output file cannot be combined with several inputs or a directory".to_owned(),
            InvocationError::MultiTargetNeedsMode => "formatting several files or a directory needs in-place or check mode".to_owned(),
        }
    }
}

/// Whether the invocation addresses several targets: more than one input,
/// or any directory input, unless the standard input stream is forced.
pub open spec fn multi_target(num_inputs: int, any_directory: bool, use_stdin: bool) -> bool {
    !use_stdin && (num_inputs > 1 || any_directory)
}

/// The eager validation of an invocation: with several targets an explicit
/// output file is rejected, and either in-place or check mode must have
/// been asked for. On success, whether the invocation is multi-target.
pub open spec fn validated(
    num_inputs: int,
    any_directory: bool,
    use_stdin: bool,
    has_output: bool,
    in_place: bool,
    check: bool,
) -> Result<bool, InvocationError> {
    let multi = multi_target(num_inputs, any_directory, use_stdin);
    if multi && has_output {
        Err(InvocationError::OutputWithMultipleTargets)
    } else if multi && !in_place && !check {
        Err(InvocationError::MultiTargetNeedsMode)
    } else {
        Ok(multi)
    }
}

/// Validate an invocation before any file is touched.
pub fn validate_invocation(
    num_inputs: usize,
    any_directory: bool,
    use_stdin: bool,
    has_output: bool,
    in_place: bool,
    check: bool,
) -> (r: Result<bool, InvocationError>)
    ensures
        r == validated(
            num_inputs as int,
            any_directory,
            use_stdin,
            has_output,
            in_place,
            check,
        ),
{
    let multi = !use_stdin && (num_inputs > 1 || any_directory);
    if multi && has_output {
        Err(InvocationError::OutputWithMultipleTargets)
    } else if multi && !in_place && !check {
        Err(InvocationError::MultiTargetNeedsMode)
    } else {
        Ok(multi)
    }
}

/// The output mode the flags select: check-only wins over in-place, which
/// wins over an explicit output file; the standard output stream is the
/// fallback.
pub open spec fn mode_of_flags(check: bool, in_place: bool, output: Option<String>) -> OutputMode {
    if check {
        OutputMode::CheckOnly
    } else if in_place {
        OutputMode::InPlace
    } else {
        match output {
            Some(path) => OutputMode::ToFile(path),
            None => OutputMode::Stdout,
        }
    }
}

/// Select the output mode from the flags.
pub fn output_mode(check: bool, in_place: bool, output: Option<String>) -> (m: OutputMode)
    ensures
        m == mode_of_flags(check, in_place, output),
{
    if check {
        OutputMode::CheckOnly
    } else if in_place {
        OutputMode::InPlace
    } else {
        match output {
            Some(path) => OutputMode::ToFile(path),
            None => OutputMode::Stdout,
        }
    }
}

/// One invocation's unit of work: the resolved input files, in processing
/// order, the output mode, and the idempotence switch.
pub struct BatchJob {
    /// The resolved input files, ordered and de-duplicated.
    pub inputs: Vec<String>,
    /// Where the output goes.
    pub mode: OutputMode,
    /// Whether the engine's idempotence check is skipped.
    pub skip_idempotence: bool,
}

/// The job's invariant: an explicit output file only with exactly one
/// input, and several inputs only in in-place or check-only mode.
pub open spec fn job_well_formed(job: BatchJob) -> bool {
    &&& (job.mode is ToFile ==> job.inputs@.len() == 1)
    &&& (job.inputs@.len() > 1 ==> (job.mode is InPlace || job.mode is CheckOnly))
}

/// Assemble a job, rejecting a combination that breaks the invariant.
pub fn make_batch_job(inputs: Vec<String>, mode: OutputMode, skip_idempotence: bool) -> (r: Result<
    BatchJob,
    InvocationError,
>)
    ensures
        r matches Ok(job) ==> {
            &&& job_well_formed(job)
            &&& job.inputs == inputs
            &&& job.mode == mode
            &&& job.skip_idempotence == skip_idempotence
        },
        r is Err <==> ((mode is ToFile && inputs@.len() != 1) || (inputs@.len() > 1 && !(
        mode is InPlace
            || mode is CheckOnly))),
{
    let to_file = matches!(mode, OutputMode::ToFile(_));
    if to_file && inputs.len() != 1 {
        return Err(InvocationError::OutputWithMultipleTargets);
    }
    let writable = matches!(mode, OutputMode::InPlace | OutputMode::CheckOnly);
    if inputs.len() > 1 && !writable {
        return Err(InvocationError::MultiTargetNeedsMode);
    }
    Ok(BatchJob { inputs, mode, skip_idempotence })
}

/// Validation and the job invariant cohere: an invocation that passed the
/// eager validation as multi-target carries no explicit output file, so the
/// mode its flags select is in-place or check-only — exactly what
/// `job_well_formed` asks of a job with several inputs.
pub proof fn lemma_validated_multi_mode(
    num_inputs: int,
    any_directory: bool,
    use_stdin: bool,
    in_place: bool,
    check: bool,
)
    requires
        validated(num_inputs, any_directory, use_stdin, false, in_place, check) == Ok::<
            bool,
            InvocationError,
        >(true),
    ensures
        mode_of_flags(check, in_place, None) is InPlace || mode_of_flags(
            check,
            in_place,
            None,
        ) is CheckOnly,
{
}

/// An entry met while walking a directory tree: its path, its bare file
/// name, and whether it is a regular file.
pub struct WalkedEntry {
    /// The full path, as handed to later processing.
    pub path: String,
    /// The final name component alone.
    pub name: String,
    /// Whether the entry is a regular file.
    pub is_file: bool,
}

/// The paths of the regular files whose name carries the language's file
/// extension, in the order met.
pub open spec fn elm_file_selection(entries: Seq<WalkedEntry>) -> Seq<String>
    decreases entries.len(),
{
    if entries.len() == 0 {
        Seq::empty()
    } else {
        let rest = elm_file_selection(entries.drop_last());
        let e = entries.last();
        if e.is_file && elm_file_name(e.name@) {
            rest.push(e.path)
        } else {
            rest
        }
    }
}

/// Keep the regular files whose name carries the language's file extension.
pub fn select_elm_files(entries: &Vec<WalkedEntry>) -> (r: Vec<String>)
    ensures
        r@ == elm_file_selection(entries@),
{
    let mut r: Vec<String> = Vec::new();
    let mut i: usize = 0;
    while i < entries.len()
        invariant
            i <= entries@.len(),
            r@ == elm_file_selection(entries@.subrange(0, i as int)),
        decreases entries@.len() - i,
    {
        proof {
            assert(entries@.subrange(0, i + 1).drop_last() =~= entries@.subrange(0, i as int));
            assert(entries@.subrange(0, i + 1).last() == entries@[i as int]);
        }
        if entries[i].is_file && is_elm_file_name(entries[i].name.as_str()) {
            r.push(entries[i].path.clone());
        }
        i += 1;
    }
    assert(entries@.subrange(0, i as int) =~= entries@);
    r
}

/// The per-file result: the resolved policy and the formatted text with its
/// changed bit, or the terminal error.
pub enum FormatOutcome {
    /// Formatting succeeded.
    Done {
        /// The policy resolved for this file's directory.
        config: FormatterConfig,
        /// The formatted text.
        formatted: String,
        /// Whether the formatted text differs from the original.
        changed: bool,
    },
    /// Formatting failed; the file is left alone.
    Failed(FmtError),
}

/// Process one file's content: resolve the policy from the ancestor walk's
/// documents, compose the rules, format, and record whether anything
/// changed.
pub fn process_file(
    content: &str,
    ancestor_docs: &Vec<Option<String>>,
    skip_idempotence: bool,
) -> (r: FormatOutcome)
    ensures
        r matches FormatOutcome::Done { config, formatted, changed } ==> {
            &&& engine_result(
                rule_document_spec(config),
                space_chars(config.indentation as nat),
                skip_idempotence,
                content@,
            ) == Some(formatted@)
            &&& changed == (formatted@ != content@)
            &&& (!skip_idempotence ==> engine_result(
                rule_document_spec(config),
                space_chars(config.indentation as nat),
                false,
                formatted@,
            ) == Some(formatted@))
            &&& (first_present(ancestor_docs@) is None ==> config == default_config())
            &&& (first_present(ancestor_docs@) matches Some(d) ==> Ok::<
                FormatterConfig,
                crate::errors::ConfigError,
            >(config) == parsed_config_spec(d@))
        },
        r matches FormatOutcome::Failed(FmtError::Config(ce)) ==> (first_present(
            ancestor_docs@,
        ) matches Some(d) && Err::<FormatterConfig, crate::errors::ConfigError>(ce)
            == parsed_config_spec(d@)),
{
    let config = match resolve_config(ancestor_docs) {
        Ok(c) => c,
        Err(ce) => {
            return FormatOutcome::Failed(FmtError::Config(ce));
        },
    };
    match format_with_config(content, &config, skip_idempotence) {
        Ok(formatted) => {
            let original = String::from_str(content);
            let changed = !formatted.eq(&original);
            FormatOutcome::Done { config, formatted, changed }
        },
        Err(e) => FormatOutcome::Failed(e),
    }
}

/// Whether an outcome is a terminal error.
pub open spec fn outcome_failed(o: FormatOutcome) -> bool {
    o is Failed
}

/// Whether an outcome found the file in need of reformatting.
pub open spec fn outcome_changed(o: FormatOutcome) -> bool {
    o matches FormatOutcome::Done { changed, .. } && changed
}

/// Whether in-place mode rewrites the file: only a changed file is written,
/// so an already-formatted file keeps its metadata.
pub fn needs_rewrite(o: &FormatOutcome) -> (b: bool)
    ensures
        b == outcome_changed(*o),
{
    match o {
        FormatOutcome::Done { changed, .. } => *changed,
        FormatOutcome::Failed(_) => false,
    }
}

/// Whether the outcome is an error, and which.
pub fn outcome_error(o: &FormatOutcome) -> (r: Option<FmtError>)
    ensures
        match r {
            Some(e) => o matches FormatOutcome::Failed(f) && e == f,
            None => !outcome_failed(*o),
        },
{
    match o {
        FormatOutcome::Done { .. } => None,
        FormatOutcome::Failed(e) => Some(*e),
    }
}

/// Some outcome found its file in need of reformatting.
pub open spec fn any_changed(outcomes: Seq<FormatOutcome>) -> bool {
    exists|i: int| 0 <= i < outcomes.len() && outcome_changed(outcomes[i])
}

/// Some outcome is a terminal error.
pub open spec fn any_failed(outcomes: Seq<FormatOutcome>) -> bool {
    exists|i: int| 0 <= i < outcomes.len() && outcome_failed(outcomes[i])
}

/// The process-level outcome is failure exactly when check mode found at
/// least one file needing reformatting, or any file failed outright.
pub open spec fn batch_failed(check_mode: bool, outcomes: Seq<FormatOutcome>) -> bool {
    (check_mode && any_changed(outcomes)) || any_failed(outcomes)
}

/// Fold the per-file outcomes into the process-level failure flag.
pub fn batch_exit_failure(check_mode: bool, outcomes: &Vec<FormatOutcome>) -> (b: bool)
    ensures
        b == batch_failed(check_mode, outcomes@),
{
    let mut changed = false;
    let mut failed = false;
    let mut i: usize = 0;
    while i < outcomes.len()
        invariant
            i <= outcomes@.len(),
            changed == any_changed(outcomes@.subrange(0, i as int)),
            failed == any_failed(outcomes@.subrange(0, i as int)),
        decreases outcomes@.len() - i,
    {
        let ghost pre = outcomes@.subrange(0, i as int);
        let ghost cur = outcomes@.subrange(0, i + 1);
        if needs_rewrite(&outcomes[i]) {
            changed = true;
        }
        if matches!(&outcomes[i], FormatOutcome::Failed(_)) {
            failed = true;
        }
        proof {
            assert(forall|k: int| 0 <= k < pre.len() ==> cur[k] == pre[k]);
            assert(cur[i as int] == outcomes@[i as int]);
            if any_changed(pre) {
                let w = choose|w: int| 0 <= w < pre.len() && outcome_changed(pre[w]);
                assert(outcome_changed(cur[w]));
            }
            if any_failed(pre) {
                let w = choose|w: int| 0 <= w < pre.len() && outcome_failed(pre[w]);
                assert(outcome_failed(cur[w]));
            }
            if any_changed(cur) && !any_changed(pre) {
                let w = choose|w: int| 0 <= w < cur.len() && outcome_changed(cur[w]);
                assert(w == i);
            }
            if any_failed(cur) && !any_failed(pre) {
                let w = choose|w: int| 0 <= w < cur.len() && outcome_failed(cur[w]);
                assert(w == i);
            }
        }
        i += 1;
    }
    assert(outcomes@.subrange(0, i as int) =~= outcomes@);
    (check_mode && changed) || failed
}

/// The names of the files found in need of reformatting, in their
/// processing order.
pub open spec fn changed_names(entries: Seq<(String, FormatOutcome)>) -> Seq<String>
    decreases entries.len(),
{
    if entries.len() == 0 {
        Seq::empty()
    } else {
        let rest = changed_names(entries.drop_last());
        let e = entries.last();
        if outcome_changed(e.1) {
            rest.push(e.0)
        } else {
            rest
        }
    }
}

/// Collect the names of the files found in need of reformatting.
pub fn changed_files(entries: &Vec<(String, FormatOutcome)>) -> (r: Vec<String>)
    ensures
        r@ == changed_names(entries@),
{
    let mut r: Vec<String> = Vec::new();
    let mut i: usize = 0;
    while i < entries.len()
        invariant
            i <= entries@.len(),
            r@ == changed_names(entries@.subrange(0, i as int)),
        decreases entries@.len() - i,
    {
        proof {
            assert(entries@.subrange(0, i + 1).drop_last() =~= entries@.subrange(0, i as int));
            assert(entries@.subrange(0, i + 1).last() == entries@[i as int]);
        }
        if needs_rewrite(&entries[i].1) {
            r.push(entries[i].0.clone());
        }
        i += 1;
    }
    assert(entries@.subrange(0, i as int) =~= entries@);
    r
}

} // verus!
