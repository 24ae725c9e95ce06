use crate::config::PackageManagerType;
use vstd::prelude::*;
use vstd::string::StringExecFns;

verus! {

/// One installer invocation: a program and its arguments, run in the work
/// directory.
pub struct CommandView {
    pub program: Seq<char>,
    pub args: Seq<Seq<char>>,
}

/// The installer invocations of a backend, in the order they are tried, and
/// whether a failed one falls back to the next.
pub struct PlanView {
    pub commands: Seq<CommandView>,
    pub fallback: bool,
}

/// `<program> install`.
pub open spec fn install_of(program: Seq<char>) -> CommandView {
    CommandView { program, args: seq!["install"@] }
}

/// A plan of one invocation of `program`, without fallback.
pub open spec fn single_plan(program: Seq<char>) -> PlanView {
    PlanView { commands: seq![install_of(program)], fallback: false }
}

/// Bun, pnpm, yarn and npm, in that order, each tried until one succeeds.
pub open spec fn auto_plan() -> PlanView {
    PlanView {
        commands: seq![
            install_of("bun"@),
            install_of("pnpm"@),
            install_of("yarn"@),
            install_of("npm"@),
        ],
        fallback: true,
    }
}

#[derive(Debug, Clone, PartialEq, Eq)]
pub struct InstallCommand {
    pub program: String,
    pub args: Vec<String>,
}

impl View for InstallCommand {
    type V = CommandView;

    open spec fn view(&self) -> CommandView {
        CommandView { program: self.program@, args: self.args.deep_view() }
    }
}

#[derive(Debug, Clone, PartialEq, Eq)]
pub struct InstallPlan {
    pub commands: Vec<InstallCommand>,
    pub fallback: bool,
}

impl View for InstallPlan {
    type V = PlanView;

    open spec fn view(&self) -> PlanView {
        PlanView { commands: self.commands@.map_values(|c: InstallCommand| c@), fallback: self.fallback }
    }
}

fn install_command(program: &str) -> (r: InstallCommand)
    ensures
        r@ == install_of(program@),
{
    let mut args: Vec<String> = Vec::new();
    args.push(String::from_str("install"));
    assert(args.deep_view() =~= seq!["install"@]);
    InstallCommand { program: String::from_str(program), args }
}

fn single(program: &str) -> (r: InstallPlan)
    ensures
        r@ == single_plan(program@),
{
    let mut commands: Vec<InstallCommand> = Vec::new();
    commands.push(install_command(program));
    let r = InstallPlan { commands, fallback: false };
    assert(r@.commands =~= single_plan(program@).commands);
    r
}

/// A way of installing the dependencies of a work directory: the installer
/// invocations to try there, in order.
pub trait Backend {
    spec fn plan_spec(&self) -> PlanView;

    fn plan(&self) -> (r: InstallPlan)
        ensures
            r@ == self.plan_spec(),
    ;
}

/// Installs with npm.
#[derive(Debug, Clone, Copy, PartialEq, Eq)]
pub struct Npm;

/// Installs with pnpm.
#[derive(Debug, Clone, Copy, PartialEq, Eq)]
pub struct Pnpm;

/// Installs with yarn.
#[derive(Debug, Clone, Copy, PartialEq, Eq)]
pub struct Yarn;

/// Installs with bun.
#[derive(Debug, Clone, Copy, PartialEq, Eq)]
pub struct Bun;

/// Installs with the given executable, as `<executable> install`.
#[derive(Debug, Clone, PartialEq, Eq)]
pub struct Local {
    pub executable: String,
}

/// Tries bun, pnpm, yarn and npm in turn until one succeeds.
#[derive(Debug, Clone, Copy, PartialEq, Eq)]
pub struct Auto;

impl Backend for Npm {
    open spec fn plan_spec(&self) -> PlanView {
        single_plan("npm"@)
    }

    fn plan(&self) -> (r: InstallPlan) {
        single("npm")
    }
}

impl Backend for Pnpm {
    open spec fn plan_spec(&self) -> PlanView {
        single_plan("pnpm"@)
    }

    fn plan(&self) -> (r: InstallPlan) {
        single("pnpm")
    }
}

impl Backend for Yarn {
    open spec fn plan_spec(&self) -> PlanView {
        single_plan("yarn"@)
    }

    fn plan(&self) -> (r: InstallPlan) {
        single("yarn")
    }
}

impl Backend for Bun {
    open spec fn plan_spec(&self) -> PlanView {
        single_plan("bun"@)
    }

    fn plan(&self) -> (r: InstallPlan) {
        single("bun")
    }
}

impl Backend for Local {
    open spec fn plan_spec(&self) -> PlanView {
        single_plan(self.executable@)
    }

    fn plan(&self) -> (r: InstallPlan) {
        single(self.executable.as_str())
    }
}

impl Backend for Auto {
    open spec fn plan_spec(&self) -> PlanView {
        auto_plan()
    }

    fn plan(&self) -> (r: InstallPlan) {
        let mut commands: Vec<InstallCommand> = Vec::new();
        commands.push(install_command("bun"));
        commands.push(install_command("pnpm"));
        commands.push(install_command("yarn"));
        commands.push(install_command("npm"));
        let r = InstallPlan { commands, fallback: true };
        assert(r@.commands =~= auto_plan().commands);
        r
    }
}

/// The backend a configuration selects.
#[derive(Debug, Clone, PartialEq, Eq)]
pub enum SelectedBackend {
    Auto(Auto),
    Npm(Npm),
    Pnpm(Pnpm),
    Yarn(Yarn),
    Bun(Bun),
    Local(Local),
}

impl Backend for SelectedBackend {
    open spec fn plan_spec(&self) -> PlanView {
        match self {
            SelectedBackend::Auto(b) => b.plan_spec(),
            SelectedBackend::Npm(b) => b.plan_spec(),
            SelectedBackend::Pnpm(b) => b.plan_spec(),
            SelectedBackend::Yarn(b) => b.plan_spec(),
            SelectedBackend::Bun(b) => b.plan_spec(),
            SelectedBackend::Local(b) => b.plan_spec(),
        }
    }

    fn plan(&self) -> (r: InstallPlan) {
        match self {
            SelectedBackend::Auto(b) => b.plan(),
            SelectedBackend::Npm(b) => b.plan(),
            SelectedBackend::Pnpm(b) => b.plan(),
            SelectedBackend::Yarn(b) => b.plan(),
            SelectedBackend::Bun(b) => b.plan(),
            SelectedBackend::Local(b) => b.plan(),
        }
    }
}

impl PackageManagerType {
    /// The installer invocations a selector stands for.
    pub open spec fn plan_spec(self) -> PlanView {
        match self {
            PackageManagerType::Auto => auto_plan(),
            PackageManagerType::Npm => single_plan("npm"@),
            PackageManagerType::Pnpm => single_plan("pnpm"@),
            PackageManagerType::Yarn => single_plan("yarn"@),
            PackageManagerType::Bun => single_plan("bun"@),
            PackageManagerType::LocalExecutable(e) => single_plan(e@),
        }
    }

    /// The backend this selector names.
    pub fn as_backend(&self) -> (r: SelectedBackend)
        ensures
            r.plan_spec() == self.plan_spec(),
            match self {
                PackageManagerType::Auto => r is Auto,
                PackageManagerType::Npm => r is Npm,
                PackageManagerType::Pnpm => r is Pnpm,
                PackageManagerType::Yarn => r is Yarn,
                PackageManagerType::Bun => r is Bun,
                PackageManagerType::LocalExecutable(e) => r matches SelectedBackend::Local(l)
                    && l.executable@ == e@,
            },
    {
        match self {
            PackageManagerType::Auto => SelectedBackend::Auto(Auto),
            PackageManagerType::Npm => SelectedBackend::Npm(Npm),
            PackageManagerType::Pnpm => SelectedBackend::Pnpm(Pnpm),
            PackageManagerType::Yarn => SelectedBackend::Yarn(Yarn),
            PackageManagerType::Bun => SelectedBackend::Bun(Bun),
            PackageManagerType::LocalExecutable(executable) => SelectedBackend::Local(
                Local { executable: executable.clone() },
            ),
        }
    }
}

/// How one installer invocation ended.
pub enum OutcomeView {
    Succeeded,
    Failed(Seq<char>),
}

/// How one installer invocation ended.
#[derive(Debug, Clone, PartialEq, Eq)]
pub enum Outcome {
    /// The installer exited with status zero.
    Succeeded,
    /// The installer could not be run or exited with this failure.
    Failed(String),
}

impl View for Outcome {
    type V = OutcomeView;

    open spec fn view(&self) -> OutcomeView {
        match self {
            Outcome::Succeeded => OutcomeView::Succeeded,
            Outcome::Failed(reason) => OutcomeView::Failed(reason@),
        }
    }
}

impl DeepView for Outcome {
    type V = OutcomeView;

    open spec fn deep_view(&self) -> OutcomeView {
        self@
    }
}

/// The reason a failed invocation gives; nothing for a success.
pub open spec fn reason_of(o: OutcomeView) -> Seq<char> {
    match o {
        OutcomeView::Failed(reason) => reason,
        OutcomeView::Succeeded => Seq::empty(),
    }
}

/// Why an install failed.
pub enum InstallErrorView {
    Failed(Seq<char>, Seq<char>),
    NoBackendAvailable(Seq<(Seq<char>, Seq<char>)>),
}

/// Why an install failed.
#[derive(Debug, Clone, PartialEq, Eq)]
pub enum InstallError {
    /// The selected installer, run as this program, failed for this reason.
    Failed(String, String),
    /// Every candidate of a fallback scan failed: each program tried, with
    /// the reason it failed.
    NoBackendAvailable(Vec<(String, String)>),
}

impl View for InstallError {
    type V = InstallErrorView;

    open spec fn view(&self) -> InstallErrorView {
        match self {
            InstallError::Failed(p, reason) => InstallErrorView::Failed(p@, reason@),
            InstallError::NoBackendAvailable(tried) => InstallErrorView::NoBackendAvailable(
                tried.deep_view(),
            ),
        }
    }
}

/// What an install does next.
pub enum StepView {
    Run(int),
    Installed(int),
    Failed(InstallErrorView),
}

/// What an install does next, given the outcome of each invocation run so far.
#[derive(Debug, Clone, PartialEq, Eq)]
pub enum InstallStep {
    /// Run the plan's invocation of this index and report its outcome.
    Run(usize),
    /// The invocation of this index succeeded: the dependencies are installed.
    Installed(usize),
    /// The install failed; nothing more is run.
    Failed(InstallError),
}

impl View for InstallStep {
    type V = StepView;

    open spec fn view(&self) -> StepView {
        match self {
            InstallStep::Run(i) => StepView::Run(*i as int),
            InstallStep::Installed(i) => StepView::Installed(*i as int),
            InstallStep::Failed(e) => StepView::Failed(e@),
        }
    }
}

/// The index of the first successful outcome at or after `from` among the
/// first `n`, if any.
pub open spec fn first_success(outcomes: Seq<OutcomeView>, n: int, from: int) -> Option<int>
    decreases n - from,
{
    if from < 0 || from >= n || from >= outcomes.len() {
        None
    } else if outcomes[from] is Succeeded {
        Some(from)
    } else {
        first_success(outcomes, n, from + 1)
    }
}

/// The programs of a plan, each with the reason its invocation failed.
pub open spec fn failures(plan: PlanView, outcomes: Seq<OutcomeView>) -> Seq<(Seq<char>, Seq<char>)> {
    Seq::new(plan.commands.len(), |i: int| (plan.commands[i].program, reason_of(outcomes[i])))
}

/// The error of a plan whose every invocation failed with these outcomes.
pub open spec fn exhausted(plan: PlanView, outcomes: Seq<OutcomeView>) -> InstallErrorView {
    if plan.fallback || plan.commands.len() == 0 {
        InstallErrorView::NoBackendAvailable(failures(plan, outcomes))
    } else {
        InstallErrorView::Failed(
            plan.commands.last().program,
            reason_of(outcomes[plan.commands.len() - 1]),
        )
    }
}

/// The next step of an install by `plan`, once the invocations before index
/// `outcomes.len()` have run with these outcomes: stop at the first success;
/// after the last failure, fail; else run the next invocation.
pub open spec fn step_of(plan: PlanView, outcomes: Seq<OutcomeView>) -> StepView {
    match first_success(outcomes, plan.commands.len() as int, 0) {
        Some(k) => StepView::Installed(k),
        None => if outcomes.len() >= plan.commands.len() {
            StepView::Failed(exhausted(plan, outcomes))
        } else {
            StepView::Run(outcomes.len() as int)
        },
    }
}

fn reason(o: &Outcome) -> (r: String)
    ensures
        r@ == reason_of(o@),
{
    match o {
        Outcome::Failed(reason) => reason.clone(),
        Outcome::Succeeded => String::new(),
    }
}

fn exhausted_error(plan: &InstallPlan, outcomes: &Vec<Outcome>) -> (r: InstallError)
    requires
        outcomes@.len() >= plan@.commands.len(),
    ensures
        r@ == exhausted(plan@, outcomes.deep_view()),
{
    let n = plan.commands.len();
    let ghost os = outcomes.deep_view();
    if plan.fallback || n == 0 {
        let mut tried: Vec<(String, String)> = Vec::new();
        let mut i: usize = 0;
        while i < n
            invariant
                0 <= i <= n,
                n == plan.commands@.len(),
                n <= outcomes@.len(),
                os == outcomes.deep_view(),
                tried.deep_view() =~= failures(plan@, os).subrange(0, i as int),
            decreases n - i,
        {
            let ghost before = tried.deep_view();
            let p = plan.commands[i].program.clone();
            let why = reason(&outcomes[i]);
            tried.push((p, why));
            assert(tried.deep_view() =~= before.push((p@, why@)));
            assert(failures(plan@, os)[i as int] == (plan.commands@[i as int].program@, why@));
            i = i + 1;
        }
        assert(failures(plan@, os).subrange(0, n as int) =~= failures(plan@, os));
        InstallError::NoBackendAvailable(tried)
    } else {
        InstallError::Failed(plan.commands[n - 1].program.clone(), reason(&outcomes[n - 1]))
    }
}

/// Decides what an install by `plan` does next, given the outcome of each
/// invocation it has run, in order.
pub fn next_step(plan: &InstallPlan, outcomes: &Vec<Outcome>) -> (r: InstallStep)
    ensures
        r@ == step_of(plan@, outcomes.deep_view()),
{
    let n = plan.commands.len();
    let ghost os = outcomes.deep_view();
    let mut i: usize = 0;
    while i < n && i < outcomes.len()
        invariant
            0 <= i,
            n == plan@.commands.len(),
            os == outcomes.deep_view(),
            first_success(os, n as int, 0) == first_success(os, n as int, i as int),
        decreases n - i,
    {
        if let Outcome::Succeeded = outcomes[i] {
            return InstallStep::Installed(i);
        }
        i = i + 1;
    }
    if outcomes.len() >= n {
        InstallStep::Failed(exhausted_error(plan, outcomes))
    } else {
        InstallStep::Run(outcomes.len())
    }
}

proof fn first_success_skips_failures(outcomes: Seq<OutcomeView>, n: int, from: int, to: int)
    requires
        0 <= from <= to,
        forall|j: int| from <= j < to && j < outcomes.len() ==> outcomes[j] is Failed,
    ensures
        first_success(outcomes, n, from) == first_success(outcomes, n, to),
    decreases to - from,
{
    if from < to && from < n && from < outcomes.len() {
        first_success_skips_failures(outcomes, n, from + 1, to);
    }
}

proof fn first_success_past_end(outcomes: Seq<OutcomeView>, n: int, from: int)
    requires
        from >= n || from >= outcomes.len(),
    ensures
        first_success(outcomes, n, from) is None,
{
}

/// An automatic install runs bun, pnpm, yarn and npm in that order, and stops
/// at the first that succeeds: given how each would end, the candidates
/// before the first success are run one after another, the successful one is
/// reported installed, and none after it is run.
pub proof fn auto_stops_at_first_success(results: Seq<OutcomeView>, k: int)
    requires
        results.len() == 4,
        0 <= k < 4,
        results[k] is Succeeded,
        forall|j: int| 0 <= j < k ==> results[j] is Failed,
    ensures
        forall|j: int| 0 <= j <= k ==> step_of(auto_plan(), #[trigger] results.subrange(0, j)) == StepView::Run(j),
        step_of(auto_plan(), results.subrange(0, k + 1)) == StepView::Installed(k),
{
    assert forall|j: int| 0 <= j <= k implies step_of(auto_plan(), #[trigger] results.subrange(0, j)) == StepView::Run(j) by {
        let o = results.subrange(0, j);
        first_success_skips_failures(o, 4, 0, j);
        first_success_past_end(o, 4, j);
    }
    let o = results.subrange(0, k + 1);
    first_success_skips_failures(o, 4, 0, k);
}

/// An automatic install whose every candidate fails ends with
/// `NoBackendAvailable`, naming bun, pnpm, yarn and npm as tried, each with
/// the reason it failed.
pub proof fn auto_fails_when_none_succeed(results: Seq<OutcomeView>)
    requires
        results.len() == 4,
        forall|j: int| 0 <= j < 4 ==> results[j] is Failed,
    ensures
        step_of(auto_plan(), results) == StepView::Failed(
            InstallErrorView::NoBackendAvailable(
                seq![
                    ("bun"@, reason_of(results[0])),
                    ("pnpm"@, reason_of(results[1])),
                    ("yarn"@, reason_of(results[2])),
                    ("npm"@, reason_of(results[3])),
                ],
            ),
        ),
{
    first_success_skips_failures(results, 4, 0, 4);
    first_success_past_end(results, 4, 4);
    assert(failures(auto_plan(), results) =~= seq![
        ("bun"@, reason_of(results[0])),
        ("pnpm"@, reason_of(results[1])),
        ("yarn"@, reason_of(results[2])),
        ("npm"@, reason_of(results[3])),
    ]);
}

} // verus!
