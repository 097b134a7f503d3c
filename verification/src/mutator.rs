//! The privileged state-change protocol: materialize a parameterized action
//! script, launch it through a privilege-elevating process, remove the
//! temporary script whatever the outcome, and map the elevated process's
//! exit status to the apply result.
//!
//! The protocol is a phase machine. The embedding program performs each
//! outside step (the file write, the elevated launch, the file removal) and
//! reports its outcome back; every decision — what to do next, whether the
//! launch happens at all, and what the final verdict is — is made here.

use vstd::prelude::*;

verus! {

/// Why an apply call failed.
#[derive(Clone, Copy, Debug, PartialEq, Eq, Structural)]
pub enum ApplyError {
    /// The elevated process exited with a non-zero status: the user
    /// declined elevation, the post-write verification found the preference
    /// not holding the desired value, or the subsystem raised an exception.
    Rejected,
    /// The action script could not be written to its temporary location.
    ScriptWriteFailed,
    /// The privilege-elevating process could not be launched at all.
    LaunchFailed,
}

/// How the elevated launch ended.
#[derive(Clone, Copy, Debug, PartialEq, Eq, Structural)]
pub enum LaunchOutcome {
    /// The process ran and exited with status zero: the script set the
    /// preference, re-read it, and found it matching the desired value.
    ExitSuccess,
    /// The process ran and exited with a non-zero status.
    ExitFailure,
    /// The process could not be spawned.
    SpawnFailed,
}

/// Where an apply call stands.
#[derive(Clone, Copy, Debug, PartialEq, Eq)]
pub enum ApplyPhase {
    /// The action script for this target value must be materialized.
    Materializing { target: bool },
    /// The script is on disk; the elevated launch must run.
    Launching,
    /// The launch ended as recorded; the temporary script must be removed.
    Cleaning { launch: LaunchOutcome },
    /// The protocol is over with this result.
    Done { result: Result<(), ApplyError> },
}

/// The outside step the embedding program must perform next.
#[derive(Clone, Copy, Debug, PartialEq, Eq)]
pub enum ApplyStep {
    /// Write the action script for this target value to the temporary
    /// location.
    WriteScript { target: bool },
    /// Launch the script through a privilege-elevating process and wait.
    LaunchElevated,
    /// Remove the temporary script (best effort; a removal failure is not
    /// itself an error).
    RemoveScript,
    /// Report this result to whoever invoked the toggle.
    Report { result: Result<(), ApplyError> },
}

/// The verdict the exit status of the elevated launch maps to: zero exit is
/// success, non-zero exit is `Rejected`, a launch that never ran is
/// `LaunchFailed`.
pub open spec fn spec_verdict(launch: LaunchOutcome) -> Result<(), ApplyError> {
    match launch {
        LaunchOutcome::ExitSuccess => Ok(()),
        LaunchOutcome::ExitFailure => Err(ApplyError::Rejected),
        LaunchOutcome::SpawnFailed => Err(ApplyError::LaunchFailed),
    }
}

/// The result of a whole apply run, from the outcomes of its two outside
/// steps: a failed write ends the run at once, otherwise the launch outcome
/// decides.
pub open spec fn spec_apply_result(write_ok: bool, launch: LaunchOutcome) -> Result<
    (),
    ApplyError,
> {
    if write_ok {
        spec_verdict(launch)
    } else {
        Err(ApplyError::ScriptWriteFailed)
    }
}

/// The outside step each phase calls for.
pub open spec fn spec_next_step(p: ApplyPhase) -> ApplyStep {
    match p {
        ApplyPhase::Materializing { target } => ApplyStep::WriteScript { target },
        ApplyPhase::Launching => ApplyStep::LaunchElevated,
        ApplyPhase::Cleaning { .. } => ApplyStep::RemoveScript,
        ApplyPhase::Done { result } => ApplyStep::Report { result },
    }
}

/// The phase after the script write ended: on success the launch follows;
/// on failure the run is over (there is no file to clean up). Any other
/// phase is unchanged.
pub open spec fn spec_script_written(p: ApplyPhase, ok: bool) -> ApplyPhase {
    match p {
        ApplyPhase::Materializing { .. } => if ok {
            ApplyPhase::Launching
        } else {
            ApplyPhase::Done { result: Err(ApplyError::ScriptWriteFailed) }
        },
        _ => p,
    }
}

/// The phase after the elevated launch ended: cleanup always follows,
/// whatever the outcome was. Any other phase is unchanged.
pub open spec fn spec_launch_finished(p: ApplyPhase, outcome: LaunchOutcome) -> ApplyPhase {
    match p {
        ApplyPhase::Launching => ApplyPhase::Cleaning { launch: outcome },
        _ => p,
    }
}

/// The phase after the temporary script was removed: the run is over and
/// the recorded launch outcome decides the verdict. Any other phase is
/// unchanged.
pub open spec fn spec_script_removed(p: ApplyPhase) -> ApplyPhase {
    match p {
        ApplyPhase::Cleaning { launch } => ApplyPhase::Done { result: spec_verdict(launch) },
        _ => p,
    }
}

/// Begins an apply run for the given target value.
pub fn apply_begin(target: bool) -> (p: ApplyPhase)
    ensures
        p == (ApplyPhase::Materializing { target }),
{
    ApplyPhase::Materializing { target }
}

/// The outside step the embedding program must perform in this phase.
pub fn apply_next_step(p: &ApplyPhase) -> (s: ApplyStep)
    ensures
        s == spec_next_step(*p),
{
    match *p {
        ApplyPhase::Materializing { target } => ApplyStep::WriteScript { target },
        ApplyPhase::Launching => ApplyStep::LaunchElevated,
        ApplyPhase::Cleaning { .. } => ApplyStep::RemoveScript,
        ApplyPhase::Done { result } => ApplyStep::Report { result },
    }
}

/// Advances the run after the script write ended.
pub fn apply_script_written(p: ApplyPhase, ok: bool) -> (q: ApplyPhase)
    ensures
        q == spec_script_written(p, ok),
{
    match p {
        ApplyPhase::Materializing { .. } => if ok {
            ApplyPhase::Launching
        } else {
            ApplyPhase::Done { result: Err(ApplyError::ScriptWriteFailed) }
        },
        _ => p,
    }
}

/// Advances the run after the elevated launch ended.
pub fn apply_launch_finished(p: ApplyPhase, outcome: LaunchOutcome) -> (q: ApplyPhase)
    ensures
        q == spec_launch_finished(p, outcome),
{
    match p {
        ApplyPhase::Launching => ApplyPhase::Cleaning { launch: outcome },
        _ => p,
    }
}

/// Advances the run after the temporary script was removed.
pub fn apply_script_removed(p: ApplyPhase) -> (q: ApplyPhase)
    ensures
        q == spec_script_removed(p),
{
    match p {
        ApplyPhase::Cleaning { launch } => ApplyPhase::Done {
            result: match launch {
                LaunchOutcome::ExitSuccess => Ok(()),
                LaunchOutcome::ExitFailure => Err(ApplyError::Rejected),
                LaunchOutcome::SpawnFailed => Err(ApplyError::LaunchFailed),
            },
        },
        _ => p,
    }
}

/// The result of a finished run, or `None` while the run is still under
/// way.
pub fn apply_result(p: &ApplyPhase) -> (r: Option<Result<(), ApplyError>>)
    ensures
        r == (match *p {
            ApplyPhase::Done { result } => Some(result),
            _ => None::<Result<(), ApplyError>>,
        }),
{
    match *p {
        ApplyPhase::Done { result } => Some(result),
        _ => None,
    }
}

/// The action script that enables real-time protection: it sets the
/// preference, waits for the subsystem to settle, re-reads the preference,
/// and exits with a non-zero status unless the re-read matches.
pub open spec fn spec_enable_script() -> Seq<char> {
    (r#"
Add-Type -AssemblyName System.Windows.Forms;
try {
    Write-Host 'Attempting to enable Real-time protection...';
    Set-MpPreference -DisableRealtimeMonitoring $false;
    Start-Sleep -Seconds 2;
    $status = Get-MpPreference | Select-Object -ExpandProperty DisableRealtimeMonitoring;
    if (!$status) {
        Write-Host 'Successfully enabled Real-time protection';
    } else {
        Write-Host 'Failed to enable Real-time protection';
        exit 1;
    }
} catch {
    Write-Host "Error: $($_.Exception.Message)";
    exit 1;
}"#)@
}

/// The action script that disables real-time protection, verifying in the
/// same way.
pub open spec fn spec_disable_script() -> Seq<char> {
    (r#"
Add-Type -AssemblyName System.Windows.Forms;
try {
    Write-Host 'Attempting to disable Real-time protection...';
    Set-MpPreference -DisableRealtimeMonitoring $true;
    Start-Sleep -Seconds 2;
    $status = Get-MpPreference | Select-Object -ExpandProperty DisableRealtimeMonitoring;
    if ($status) {
        Write-Host 'Successfully disabled Real-time protection';
    } else {
        Write-Host 'Failed to disable Real-time protection';
        exit 1;
    }
} catch {
    Write-Host "Error: $($_.Exception.Message)";
    exit 1;
}"#)@
}

/// The script an apply run materializes for a target value.
pub open spec fn spec_script_text(target: bool) -> Seq<char> {
    if target {
        spec_enable_script()
    } else {
        spec_disable_script()
    }
}

/// Returns the action script to materialize for the given target value: the
/// enabling script for `true`, the disabling script for `false`.
pub fn script_text(target: bool) -> (r: &'static str)
    ensures
        r@ == spec_script_text(target),
{
    if target {
        r#"
Add-Type -AssemblyName System.Windows.Forms;
try {
    Write-Host 'Attempting to enable Real-time protection...';
    Set-MpPreference -DisableRealtimeMonitoring $false;
    Start-Sleep -Seconds 2;
    $status = Get-MpPreference | Select-Object -ExpandProperty DisableRealtimeMonitoring;
    if (!$status) {
        Write-Host 'Successfully enabled Real-time protection';
    } else {
        Write-Host 'Failed to enable Real-time protection';
        exit 1;
    }
} catch {
    Write-Host "Error: $($_.Exception.Message)";
    exit 1;
}"#
    } else {
        r#"
Add-Type -AssemblyName System.Windows.Forms;
try {
    Write-Host 'Attempting to disable Real-time protection...';
    Set-MpPreference -DisableRealtimeMonitoring $true;
    Start-Sleep -Seconds 2;
    $status = Get-MpPreference | Select-Object -ExpandProperty DisableRealtimeMonitoring;
    if ($status) {
        Write-Host 'Successfully disabled Real-time protection';
    } else {
        Write-Host 'Failed to disable Real-time protection';
        exit 1;
    }
} catch {
    Write-Host "Error: $($_.Exception.Message)";
    exit 1;
}"#
    }
}

/// What escaping one character for the command line yields: a backslash
/// doubles, every other character stands as it is.
pub open spec fn spec_escaped_char(c: char) -> Seq<char> {
    if c == '\\' {
        seq!['\\', '\\']
    } else {
        seq![c]
    }
}

/// A character sequence with every backslash doubled.
pub open spec fn spec_escaped(s: Seq<char>) -> Seq<char>
    decreases s.len(),
{
    if s.len() == 0 {
        Seq::empty()
    } else {
        spec_escaped(s.drop_last()) + spec_escaped_char(s.last())
    }
}

/// Doubles every backslash in a path so that the shell command the path is
/// spliced into reads it back unchanged.
pub fn escape_backslashes(s: &str) -> (r: String)
    ensures
        r@ == spec_escaped(s@),
{
    proof {
        reveal_strlit("\\\\");
    }
    let n = s.unicode_len();
    let mut r = String::new();
    let mut i: usize = 0;
    while i < n
        invariant
            n == s@.len(),
            i <= n,
            r@ == spec_escaped(s@.take(i as int)),
            "\\\\"@ =~= seq!['\\', '\\'],
        decreases n - i,
    {
        let c = s.get_char(i);
        if c == '\\' {
            r.append("\\\\");
        } else {
            let piece = s.substring_char(i, i + 1);
            proof {
                assert(s@.subrange(i as int, i as int + 1) =~= seq![s@[i as int]]);
            }
            r.append(piece);
        }
        proof {
            assert(s@.take(i as int + 1).drop_last() =~= s@.take(i as int));
        }
        i = i + 1;
    }
    proof {
        assert(s@.take(n as int) =~= s@);
    }
    r
}

/// The command that launches the script at the given (already escaped) path
/// through a privilege-elevation request and waits for it to finish.
pub open spec fn spec_elevation_command(escaped_path: Seq<char>) -> Seq<char> {
    "Start-Process powershell -Verb RunAs -ArgumentList '-NoProfile -ExecutionPolicy Bypass -File \""@
        + escaped_path + "\"' -Wait"@
}

/// Builds the privilege-elevating launch command for the script at the
/// given path, doubling the path's backslashes so the elevated shell reads
/// the path back unchanged.
pub fn elevation_command(script_path: &str) -> (r: String)
    ensures
        r@ == spec_elevation_command(spec_escaped(script_path@)),
{
    let escaped = escape_backslashes(script_path);
    let prefix = String::from_str(
        "Start-Process powershell -Verb RunAs -ArgumentList '-NoProfile -ExecutionPolicy Bypass -File \"",
    );
    let with_path = prefix.concat(escaped.as_str());
    with_path.concat("\"' -Wait")
}

/// How many phases a run can still pass through.
pub open spec fn spec_phase_rank(p: ApplyPhase) -> nat {
    match p {
        ApplyPhase::Materializing { .. } => 3,
        ApplyPhase::Launching => 2,
        ApplyPhase::Cleaning { .. } => 1,
        ApplyPhase::Done { .. } => 0,
    }
}

/// One protocol advance under fixed outcomes of the two outside steps.
pub open spec fn spec_env_step(p: ApplyPhase, write_ok: bool, launch: LaunchOutcome) -> ApplyPhase {
    match p {
        ApplyPhase::Materializing { .. } => spec_script_written(p, write_ok),
        ApplyPhase::Launching => spec_launch_finished(p, launch),
        ApplyPhase::Cleaning { .. } => spec_script_removed(p),
        ApplyPhase::Done { .. } => p,
    }
}

/// The outside steps a run commands, from the given phase to its end, when
/// the script write and the launch come out as given.
pub open spec fn spec_run_steps(p: ApplyPhase, write_ok: bool, launch: LaunchOutcome) -> Seq<
    ApplyStep,
>
    decreases spec_phase_rank(p),
{
    match p {
        ApplyPhase::Done { .. } => Seq::empty(),
        _ => seq![spec_next_step(p)] + spec_run_steps(
            spec_env_step(p, write_ok, launch),
            write_ok,
            launch,
        ),
    }
}

/// The phase a run ends in, from the given phase, when the script write and
/// the launch come out as given.
pub open spec fn spec_final_phase(p: ApplyPhase, write_ok: bool, launch: LaunchOutcome) -> ApplyPhase
    decreases spec_phase_rank(p),
{
    match p {
        ApplyPhase::Done { .. } => p,
        _ => spec_final_phase(spec_env_step(p, write_ok, launch), write_ok, launch),
    }
}

/// Every apply run terminates, and its result is exactly the verdict of the
/// outcomes of its outside steps: `Ok` only after a zero exit, `Rejected`
/// after a non-zero exit, and the write and spawn failures otherwise.
pub proof fn lemma_apply_terminates_with_verdict(
    target: bool,
    write_ok: bool,
    launch: LaunchOutcome,
)
    ensures
        spec_final_phase(ApplyPhase::Materializing { target }, write_ok, launch) == (
        ApplyPhase::Done { result: spec_apply_result(write_ok, launch) }),
{
    reveal_with_fuel(spec_final_phase, 5);
}

/// An apply run returns `Ok` if and only if the script was materialized and
/// the elevated process exited with status zero — that is, only after the
/// script's own re-read verification succeeded.
pub proof fn lemma_apply_ok_only_if_verified(write_ok: bool, launch: LaunchOutcome)
    ensures
        spec_apply_result(write_ok, launch) is Ok <==> (write_ok && launch
            == LaunchOutcome::ExitSuccess),
{
}

/// The temporary script is removed exactly when it was materialized: every
/// run whose script write succeeded commands the removal step before it
/// ends, whether the launch succeeded, failed or never ran; a run whose
/// write failed has nothing to remove and commands no removal.
pub proof fn lemma_cleanup_exactly_when_materialized(
    target: bool,
    write_ok: bool,
    launch: LaunchOutcome,
)
    ensures
        spec_run_steps(ApplyPhase::Materializing { target }, write_ok, launch).contains(
            ApplyStep::RemoveScript,
        ) <==> write_ok,
{
    reveal_with_fuel(spec_run_steps, 5);
    let steps = spec_run_steps(ApplyPhase::Materializing { target }, write_ok, launch);
    if write_ok {
        assert(steps =~= seq![
            ApplyStep::WriteScript { target },
            ApplyStep::LaunchElevated,
            ApplyStep::RemoveScript,
        ]);
        assert(steps[2] == ApplyStep::RemoveScript);
    } else {
        assert(steps =~= seq![ApplyStep::WriteScript { target }]);
        assert(forall|i: int| 0 <= i < steps.len() ==> steps[i] != ApplyStep::RemoveScript);
    }
}

} // verus!
