//! Docker helpers for worktree-scoped container access.
//!
//! The `gat dx` workflow is built around Git worktrees: it looks for running
//! containers whose bind mount source is the current worktree root, then
//! falls back to `docker compose run` from the worktree's compose directory
//! when nothing is running yet. This module decides which of the two applies
//! and which service to use, and reads the compose file's service list.

use vstd::prelude::*;
use crate::cli::run;
use crate::error::{ErrorView, GatError, Result};
use crate::git::{current_root, join_with_spaces, join_words, signed_decimal, signed_decimal_string};
use crate::naming::{join, join_path};
use crate::output::{yes_no, yes_no_spec};
use crate::sessions::opt_view;
use crate::text::{all_chars, chars_of, contains, contains_chars, eq_lit, first_index_of, has_prefix_lit, index_of, is_alnum, lines, lines_chars, push_str, slice_of, starts_with, str_eq, string_of, trim, trim_chars, trim_start_char, trim_start_char_chars};
use crate::tui::Action;
use crate::workflow::{join_texts, joined, opt_str_view};

verus! {

/// The default compose directory, relative to the worktree root.
pub const DEFAULT_COMPOSE_DIR: &'static str = ".docker";
/// Where the worktree is mounted inside containers by default.
pub const DEFAULT_WORKTREE_MOUNT: &'static str = "/cbr/apps";
/// The service chosen when the compose file declares it.
pub const DEFAULT_SERVICE: &'static str = "dp1";
/// The compose file name.
pub const COMPOSE_FILE: &'static str = "docker-compose.yml";
/// The compose override file name.
pub const COMPOSE_OVERRIDE_FILE: &'static str = "docker-compose.override.yml";
/// The container label naming a compose service.
pub const COMPOSE_SERVICE_LABEL: &'static str = "com.docker.compose.service";

/// A service declared in a compose file.
#[derive(Clone, Debug)]
pub struct ComposeService<S = String> {
    pub name: S,
    /// Whether the service sits in a `_disabled` profile.
    pub disabled: bool,
}

/// The specification-level service.
pub type ServiceView = ComposeService<Seq<char>>;

impl View for ComposeService<String> {
    type V = ComposeService<Seq<char>>;

    open spec fn view(&self) -> ComposeService<Seq<char>> {
        ComposeService { name: self.name@, disabled: self.disabled }
    }
}

/// Services taken by their views.
pub open spec fn services_view(v: Seq<ComposeService>) -> Seq<ServiceView> {
    v.map_values(|s: ComposeService| s@)
}

/// A running container that mounts the current worktree.
#[derive(Clone, Debug)]
pub struct RunningContainer<S = String> {
    pub id: S,
    pub name: S,
    /// Its compose service label, if any.
    pub service: Option<S>,
    pub worktree_root: S,
}

/// The specification-level container.
pub type ContainerView = RunningContainer<Seq<char>>;

impl View for RunningContainer<String> {
    type V = RunningContainer<Seq<char>>;

    open spec fn view(&self) -> RunningContainer<Seq<char>> {
        RunningContainer { id: self.id@, name: self.name@, service: opt_view(self.service), worktree_root: self.worktree_root@ }
    }
}

/// Containers taken by their views.
pub open spec fn containers_view(v: Seq<RunningContainer>) -> Seq<ContainerView> {
    v.map_values(|c: RunningContainer| c@)
}

/// A chosen service and where the choice came from.
#[derive(Clone, Debug)]
pub struct ServiceChoice<S = String> {
    pub name: S,
    pub source: S,
}

/// The specification-level choice.
pub type ChoiceView = ServiceChoice<Seq<char>>;

impl View for ServiceChoice<String> {
    type V = ServiceChoice<Seq<char>>;

    open spec fn view(&self) -> ServiceChoice<Seq<char>> {
        ServiceChoice { name: self.name@, source: self.source@ }
    }
}

/// An optional choice taken by its view.
pub open spec fn choice_view(c: Option<ServiceChoice>) -> Option<ChoiceView> {
    match c {
        Some(x) => Some(x@),
        None => None,
    }
}

/// A present, non-empty text.
pub open spec fn non_empty_text(v: Option<Seq<char>>) -> Option<Seq<char>> {
    match v {
        Some(t) => if t.len() > 0 { Some(t) } else { None },
        None => None,
    }
}

/// Whether some service has this name.
pub open spec fn declares(services: Seq<ServiceView>, name: Seq<char>) -> bool {
    exists|k: int| 0 <= k < services.len() && (#[trigger] services[k]).name == name
}

/// The services not disabled, in order.
pub open spec fn runnable(services: Seq<ServiceView>) -> Seq<ServiceView>
    decreases services.len(),
{
    if services.len() == 0 {
        services
    } else if services.last().disabled {
        runnable(services.drop_last())
    } else {
        runnable(services.drop_last()).push(services.last())
    }
}

/// The service to use: `--service` (when not empty), then
/// `GAT_DOCKER_SERVICE` (when not empty), then `git config
/// gat.dockerService`, then `dp1` when declared, then the only runnable
/// service; otherwise none.
pub open spec fn service_choice(
    service_override: Option<Seq<char>>,
    env_service: Option<Seq<char>>,
    git_service: Option<Seq<char>>,
    declared: Seq<ServiceView>,
) -> Option<ChoiceView> {
    match non_empty_text(service_override) {
        Some(s) => Some(ServiceChoice { name: s, source: "cli --service"@ }),
        None => match non_empty_text(env_service) {
            Some(s) => Some(ServiceChoice { name: s, source: "GAT_DOCKER_SERVICE"@ }),
            None => match git_service {
                Some(s) => Some(ServiceChoice { name: s, source: "git config gat.dockerService"@ }),
                None => if declares(declared, DEFAULT_SERVICE@) {
                    Some(ServiceChoice { name: DEFAULT_SERVICE@, source: "default dp1"@ })
                } else if runnable(declared).len() == 1 {
                    Some(ServiceChoice { name: runnable(declared)[0].name, source: "only runnable service"@ })
                } else {
                    None
                },
            },
        },
    }
}

/// The service precedence: a non-empty `--service` always wins, whatever
/// the environment, Git setting and compose file say; without it a
/// non-empty `GAT_DOCKER_SERVICE` wins; without both the
/// `gat.dockerService` setting wins; only when none is given does the
/// compose file decide, with a declared `dp1` first.
pub proof fn lemma_service_precedence(
    service_override: Option<Seq<char>>,
    env_service: Option<Seq<char>>,
    git_service: Option<Seq<char>>,
    declared: Seq<ServiceView>,
)
    ensures
        service_override is Some && service_override->0.len() > 0 ==> service_choice(service_override, env_service, git_service, declared)
            == Some(ServiceChoice { name: service_override->0, source: "cli --service"@ }),
        service_override is Some && service_override->0.len() > 0
            ==> (service_choice(service_override, env_service, git_service, declared) is Some
            && service_choice(service_override, env_service, git_service, declared)->0.name == service_override->0),
        (service_override is None || service_override->0.len() == 0) && env_service is Some && env_service->0.len() > 0
            ==> service_choice(service_override, env_service, git_service, declared)
            == Some(ServiceChoice { name: env_service->0, source: "GAT_DOCKER_SERVICE"@ }),
        (service_override is None || service_override->0.len() == 0) && (env_service is None || env_service->0.len() == 0)
            && git_service is Some ==> service_choice(service_override, env_service, git_service, declared)
            == Some(ServiceChoice { name: git_service->0, source: "git config gat.dockerService"@ }),
        (service_override is None || service_override->0.len() == 0) && (env_service is None || env_service->0.len() == 0)
            && git_service is None && (exists|k: int| 0 <= k < declared.len() && (#[trigger] declared[k]).name == "dp1"@)
            ==> service_choice(service_override, env_service, git_service, declared)
            == Some(ServiceChoice { name: "dp1"@, source: "default dp1"@ }),
{
}

/// Whether a service named `name` is declared.
pub fn service_declared(services: &[ComposeService], name: &str) -> (r: bool)
    ensures
        r == declares(services_view(services@), name@),
{
    let ghost sv = services_view(services@);
    let mut i: usize = 0;
    while i < services.len()
        invariant
            i <= services.len(),
            sv == services_view(services@),
            forall|k: int| 0 <= k < i ==> (#[trigger] sv[k]).name != name@,
        decreases services.len() - i,
    {
        assert(sv[i as int] == services@[i as int]@);
        if str_eq(services[i].name.as_str(), name) {
            return true;
        }
        i += 1;
    }
    false
}

/// The services not disabled, in order.
fn runnable_services(services: &[ComposeService]) -> (r: Vec<ComposeService>)
    ensures
        services_view(r@) == runnable(services_view(services@)),
{
    let ghost sv = services_view(services@);
    let mut out: Vec<ComposeService> = Vec::new();
    let mut i: usize = 0;
    while i < services.len()
        invariant
            i <= services.len(),
            sv == services_view(services@),
            services_view(out@) == runnable(sv.take(i as int)),
        decreases services.len() - i,
    {
        assert(sv.take(i + 1).drop_last() =~= sv.take(i as int));
        assert(sv[i as int] == services@[i as int]@);
        if !services[i].disabled {
            let ghost before = services_view(out@);
            out.push(ComposeService { name: services[i].name.clone(), disabled: false });
            assert(services_view(out@) =~= before.push(sv[i as int]));
        }
        i += 1;
    }
    assert(sv.take(services.len() as int) =~= sv);
    out
}

/// A present, non-empty text.
fn non_empty_str(v: Option<&str>) -> (r: Option<&str>)
    ensures
        opt_str_view(r) == non_empty_text(opt_str_view(v)),
{
    match v {
        Some(t) => if chars_of(t).len() > 0 { Some(t) } else { None },
        None => None,
    }
}

/// A choice from a name and its source.
fn choice(name: &str, source: &str) -> (r: ServiceChoice)
    ensures
        r@ == (ServiceChoice { name: name@, source: source@ }),
{
    ServiceChoice { name: name.to_string(), source: source.to_string() }
}

/// Chooses the compose service, given `--service`, the `GAT_DOCKER_SERVICE`
/// environment value and the `gat.dockerService` Git setting.
pub fn resolve_service_choice(
    service_override: Option<&str>,
    env_service: Option<&str>,
    git_service: Option<&str>,
    declared: &[ComposeService],
) -> (r: Option<ServiceChoice>)
    ensures
        choice_view(r) == service_choice(opt_str_view(service_override), opt_str_view(env_service), opt_str_view(git_service), services_view(declared@)),
{
    if let Some(s) = non_empty_str(service_override) {
        return Some(choice(s, "cli --service"));
    }
    if let Some(s) = non_empty_str(env_service) {
        return Some(choice(s, "GAT_DOCKER_SERVICE"));
    }
    if let Some(s) = git_service {
        return Some(choice(s, "git config gat.dockerService"));
    }
    if service_declared(declared, DEFAULT_SERVICE) {
        return Some(choice(DEFAULT_SERVICE, "default dp1"));
    }
    let run = runnable_services(declared);
    if run.len() == 1 {
        assert(services_view(run@)[0] == run@[0]@);
        return Some(choice(run[0].name.as_str(), "only runnable service"));
    }
    None
}

/// Index of the first container labelled with `service`.
pub open spec fn container_for(containers: Seq<ContainerView>, service: Seq<char>) -> Option<int>
    decreases containers.len(),
{
    if containers.len() == 0 {
        None
    } else {
        match container_for(containers.drop_last(), service) {
            Some(i) => Some(i),
            None => if containers.last().service == Some(service) { Some(containers.len() - 1) } else { None },
        }
    }
}

/// The container to exec into: the one running the chosen service, else
/// the only container when no service was chosen.
pub open spec fn exec_target_spec(containers: Seq<ContainerView>, selected: Option<ChoiceView>) -> Option<ContainerView> {
    let by_service = match selected {
        Some(c) => match container_for(containers, c.name) {
            Some(i) => Some(containers[i]),
            None => None,
        },
        None => None,
    };
    match by_service {
        Some(c) => Some(c),
        None => if selected is None && containers.len() == 1 { Some(containers[0]) } else { None },
    }
}

proof fn lemma_container_for_prefix(cs: Seq<ContainerView>, service: Seq<char>, i: int)
    requires
        0 <= i < cs.len(),
        container_for(cs.take(i), service) is None,
        cs[i].service == Some(service),
    ensures
        container_for(cs, service) == Some(i),
    decreases cs.len(),
{
    if i == cs.len() - 1 {
        assert(cs.drop_last() =~= cs.take(i));
    } else {
        assert(cs.drop_last().take(i) =~= cs.take(i));
        lemma_container_for_prefix(cs.drop_last(), service, i);
    }
}

fn copy_container(c: &RunningContainer) -> (r: RunningContainer)
    ensures
        r@ == c@,
{
    RunningContainer {
        id: c.id.clone(),
        name: c.name.clone(),
        service: match &c.service {
            Some(s) => Some(s.clone()),
            None => None,
        },
        worktree_root: c.worktree_root.clone(),
    }
}

/// Chooses the running container to exec into.
pub fn select_exec_target(containers: &[RunningContainer], selected: Option<&ServiceChoice>) -> (r: Option<RunningContainer>)
    ensures
        match exec_target_spec(containers_view(containers@), match selected { Some(c) => Some(c@), None => None }) {
            Some(c) => r matches Some(x) && x@ == c,
            None => r is None,
        },
{
    let ghost cv = containers_view(containers@);
    if let Some(choice) = selected {
        let mut i: usize = 0;
        while i < containers.len()
            invariant
                i <= containers.len(),
                cv == containers_view(containers@),
                selected == Some(choice),
                container_for(cv.take(i as int), choice.name@) is None,
            decreases containers.len() - i,
        {
            assert(cv.take(i + 1).drop_last() =~= cv.take(i as int));
            assert(cv[i as int] == containers@[i as int]@);
            let matches_service = match &containers[i].service {
                Some(s) => str_eq(s.as_str(), choice.name.as_str()),
                None => false,
            };
            if matches_service {
                proof {
                    lemma_container_for_prefix(cv, choice.name@, i as int);
                    assert(selected == Some(choice));
                    assert(exec_target_spec(cv, Some(choice@)) == Some(cv[i as int]));
                }
                return Some(copy_container(&containers[i]));
            }
            i += 1;
        }
        assert(cv.take(containers.len() as int) =~= cv);
    }
    if selected.is_none() && containers.len() == 1 {
        assert(cv[0] == containers@[0]@);
        return Some(copy_container(&containers[0]));
    }
    None
}

/// The names of the runnable services.
pub open spec fn runnable_names(services: Seq<ServiceView>) -> Seq<Seq<char>> {
    runnable(services).map_values(|s: ServiceView| s.name)
}

/// Why no service could be chosen, with what the user can do about it.
pub open spec fn service_help_text(services: Seq<ServiceView>) -> Seq<char> {
    if services.len() == 0 {
        "no docker service could be selected automatically; add docker-compose.yml under the worktree or pass `gat dx --service <name>`"@
    } else if runnable(services).len() == 0 {
        "all declared compose services are disabled; pass `gat dx --service <name>` or set `git config gat.dockerService <name>`"@
    } else {
        "could not choose a docker service automatically; available services: "@ + joined(runnable_names(services), ", "@)
            + ". Pass `gat dx --service <name>` or set `git config gat.dockerService <name>`"@
    }
}

/// Explains why no service could be chosen.
pub fn select_service_help(services: &[ComposeService]) -> (r: String)
    ensures
        r@ == service_help_text(services_view(services@)),
{
    if services.len() == 0 {
        return "no docker service could be selected automatically; add docker-compose.yml under the worktree or pass `gat dx --service <name>`".to_string();
    }
    let run = runnable_services(services);
    if run.len() == 0 {
        return "all declared compose services are disabled; pass `gat dx --service <name>` or set `git config gat.dockerService <name>`".to_string();
    }
    let ghost rv = services_view(run@);
    let mut names: Vec<String> = Vec::new();
    let mut i: usize = 0;
    while i < run.len()
        invariant
            i <= run.len(),
            rv == services_view(run@),
            names@.map_values(|w: String| w@) == rv.take(i as int).map_values(|s: ServiceView| s.name),
        decreases run.len() - i,
    {
        let ghost before = names@.map_values(|w: String| w@);
        assert(rv[i as int] == run@[i as int]@);
        let name = run[i].name.clone();
        assert(name@ == rv[i as int].name);
        names.push(name);
        assert(rv.take(i + 1) =~= rv.take(i as int).push(rv[i as int]));
        assert(names@.map_values(|w: String| w@) =~= before.push(rv[i as int].name));
        assert(rv.take(i + 1).map_values(|s: ServiceView| s.name) =~= before.push(rv[i as int].name));
        i += 1;
    }
    assert(rv.take(run.len() as int) =~= rv);
    let mut out = "could not choose a docker service automatically; available services: ".to_string();
    push_str(&mut out, join_texts(names.as_slice(), ", ").as_str());
    push_str(&mut out, ". Pass `gat dx --service <name>` or set `git config gat.dockerService <name>`");
    out
}

/// A path made absolute under the worktree root (an absolute one is kept).
pub open spec fn under_worktree(root: Seq<char>, path: Seq<char>) -> Seq<char> {
    if path.len() > 0 && path[0] == '/' { path } else { join_path(root, path) }
}

/// The compose directory: `GAT_DOCKER_COMPOSE_DIR` (when not empty), then
/// `git config gat.dockerComposeDir`, then `.docker`; relative ones under
/// the worktree root.
pub open spec fn compose_dir_spec(root: Seq<char>, env_dir: Option<Seq<char>>, git_dir: Option<Seq<char>>) -> Seq<char> {
    match non_empty_text(env_dir) {
        Some(d) => under_worktree(root, d),
        None => match git_dir {
            Some(d) => under_worktree(root, d),
            None => under_worktree(root, DEFAULT_COMPOSE_DIR@),
        },
    }
}

fn absolutize_under_worktree(root: &str, path: &str) -> (r: String)
    ensures
        r@ == under_worktree(root@, path@),
{
    let p = chars_of(path);
    if p.len() > 0 && p[0] == '/' {
        path.to_string()
    } else {
        join(root, path)
    }
}

/// Resolves the compose directory.
pub fn resolve_compose_dir(current_root: &str, env_dir: Option<&str>, git_dir: Option<&str>) -> (r: String)
    ensures
        r@ == compose_dir_spec(current_root@, opt_str_view(env_dir), opt_str_view(git_dir)),
{
    match non_empty_str(env_dir) {
        Some(d) => absolutize_under_worktree(current_root, d),
        None => match git_dir {
            Some(d) => absolutize_under_worktree(current_root, d),
            None => absolutize_under_worktree(current_root, DEFAULT_COMPOSE_DIR),
        },
    }
}

/// The in-container mount point of the worktree: `GAT_DOCKER_WORKTREE_MOUNT`
/// (when not empty), then `git config gat.dockerWorktreeMount`, then
/// `/cbr/apps`.
pub open spec fn worktree_mount_spec(env_mount: Option<Seq<char>>, git_mount: Option<Seq<char>>) -> Seq<char> {
    match non_empty_text(env_mount) {
        Some(m) => m,
        None => match git_mount {
            Some(m) => m,
            None => DEFAULT_WORKTREE_MOUNT@,
        },
    }
}

/// Resolves the in-container worktree mount point.
pub fn resolve_worktree_mount(env_mount: Option<&str>, git_mount: Option<&str>) -> (r: String)
    ensures
        r@ == worktree_mount_spec(opt_str_view(env_mount), opt_str_view(git_mount)),
{
    match non_empty_str(env_mount) {
        Some(m) => m.to_string(),
        None => match git_mount {
            Some(m) => m.to_string(),
            None => DEFAULT_WORKTREE_MOUNT.to_string(),
        },
    }
}

/// What `gat dx` will do and what it found.
#[derive(Debug)]
pub struct DockerPlan {
    pub worktree_root: String,
    pub compose_dir: String,
    pub compose_file_exists: bool,
    pub override_file_exists: bool,
    pub worktree_mount: String,
    pub declared_services: Vec<ComposeService>,
    pub running_containers: Vec<RunningContainer>,
    pub selected_service: Option<ServiceChoice>,
    pub exec_target: Option<RunningContainer>,
    pub compose_target: Option<ServiceChoice>,
    pub issue: Option<String>,
}

/// When no container can be exec'd into: run the chosen service through
/// compose if the compose file exists and declares it, otherwise explain
/// what is missing. Yields the compose target and the issue.
pub open spec fn fallback_spec(
    compose_dir: Seq<char>,
    compose_file_exists: bool,
    declared: Seq<ServiceView>,
    running_count: nat,
    selected: Option<ChoiceView>,
) -> (Option<ChoiceView>, Option<Seq<char>>) {
    if !compose_file_exists {
        (None, Some("missing compose file at "@ + join_path(compose_dir, COMPOSE_FILE@)))
    } else {
        match selected {
            Some(c) => if declares(declared, c.name) {
                (Some(c), None)
            } else {
                (None, Some("service "@ + c.name + " is not declared in "@ + compose_dir))
            },
            None => if running_count > 1 {
                (None, Some("multiple containers match this worktree; use `gat dx --service <name>`"@))
            } else if running_count == 0 {
                (None, Some(service_help_text(declared)))
            } else {
                (None, None)
            },
        }
    }
}

fn copy_choice(c: &ServiceChoice) -> (r: ServiceChoice)
    ensures
        r@ == c@,
{
    ServiceChoice { name: c.name.clone(), source: c.source.clone() }
}

/// Decides the compose fallback and the issue to report.
fn fallback(
    compose_dir: &str,
    compose_file_exists: bool,
    declared: &[ComposeService],
    running_count: usize,
    selected: Option<&ServiceChoice>,
) -> (r: (Option<ServiceChoice>, Option<String>))
    ensures
        (choice_view(r.0), opt_view(r.1)) == fallback_spec(compose_dir@, compose_file_exists, services_view(declared@), running_count as nat,
            match selected { Some(c) => Some(c@), None => None }),
{
    if !compose_file_exists {
        let mut m = "missing compose file at ".to_string();
        push_str(&mut m, join(compose_dir, COMPOSE_FILE).as_str());
        return (None, Some(m));
    }
    match selected {
        Some(c) => {
            if service_declared(declared, c.name.as_str()) {
                (Some(copy_choice(c)), None)
            } else {
                let mut m = "service ".to_string();
                push_str(&mut m, c.name.as_str());
                push_str(&mut m, " is not declared in ");
                push_str(&mut m, compose_dir);
                (None, Some(m))
            }
        },
        None => {
            if running_count > 1 {
                (None, Some("multiple containers match this worktree; use `gat dx --service <name>`".to_string()))
            } else if running_count == 0 {
                (None, Some(select_service_help(declared)))
            } else {
                (None, None)
            }
        },
    }
}

/// Builds the `gat dx` plan from what was found: the canonical worktree
/// root, the compose directory and which compose files exist there, the
/// mount point, the declared services, the running containers for this
/// worktree, and the service settings (`--service`, `GAT_DOCKER_SERVICE`,
/// `gat.dockerService`).
pub fn build_plan(
    worktree_root: String,
    compose_dir: String,
    compose_file_exists: bool,
    override_file_exists: bool,
    worktree_mount: String,
    declared_services: Vec<ComposeService>,
    running_containers: Vec<RunningContainer>,
    service_override: Option<&str>,
    env_service: Option<&str>,
    git_service: Option<&str>,
) -> (r: DockerPlan)
    ensures
        r.worktree_root@ == worktree_root@,
        r.compose_dir@ == compose_dir@,
        r.compose_file_exists == compose_file_exists,
        r.override_file_exists == override_file_exists,
        r.worktree_mount@ == worktree_mount@,
        services_view(r.declared_services@) == services_view(declared_services@),
        containers_view(r.running_containers@) == containers_view(running_containers@),
        choice_view(r.selected_service) == service_choice(opt_str_view(service_override), opt_str_view(env_service),
            opt_str_view(git_service), services_view(declared_services@)),
        match exec_target_spec(containers_view(running_containers@), choice_view(r.selected_service)) {
            Some(c) => r.exec_target matches Some(x) && x@ == c && r.compose_target is None && r.issue is None,
            None => r.exec_target is None && (choice_view(r.compose_target), opt_view(r.issue)) == fallback_spec(compose_dir@,
                compose_file_exists, services_view(declared_services@), running_containers@.len(), choice_view(r.selected_service)),
        },
{
    let selected_service = resolve_service_choice(service_override, env_service, git_service, declared_services.as_slice());
    let selected_ref = match &selected_service {
        Some(c) => Some(c),
        None => None,
    };
    let exec_target = select_exec_target(running_containers.as_slice(), selected_ref);
    let (compose_target, issue) = if exec_target.is_none() {
        fallback(compose_dir.as_str(), compose_file_exists, declared_services.as_slice(), running_containers.len(), selected_ref)
    } else {
        (None, None)
    };
    DockerPlan {
        worktree_root,
        compose_dir,
        compose_file_exists,
        override_file_exists,
        worktree_mount,
        declared_services,
        running_containers,
        selected_service,
        exec_target,
        compose_target,
        issue,
    }
}

// ---------------------------------------------------------------------------
// Reading the compose file
// ---------------------------------------------------------------------------

/// A character a service name may hold.
pub open spec fn is_service_char(c: char) -> bool {
    is_alnum(c) || c == '_' || c == '-' || c == '.'
}

/// A service header line: indented by exactly two spaces, `name:` with a
/// non-empty name of ASCII letters, digits, `_`, `-` and `.`.
pub open spec fn service_header(line: Seq<char>) -> Option<Seq<char>> {
    if !starts_with(line, "  "@) || starts_with(line, "    "@) {
        None
    } else {
        let t = trim(line);
        if t.len() > 0 && t.last() == ':' {
            let name = t.drop_last();
            if name.len() > 0 && all_chars(name, |c: char| is_service_char(c)) {
                Some(name)
            } else {
                None
            }
        } else {
            None
        }
    }
}

/// Parses a compose service header line.
pub fn parse_service_header(line: &str) -> (r: Option<String>)
    ensures
        opt_view(r) == service_header(line@),
{
    let l = chars_of(line);
    if !has_prefix_lit(&l, "  ") || has_prefix_lit(&l, "    ") {
        return None;
    }
    let t = trim_chars(&l);
    if t.len() == 0 || t[t.len() - 1] != ':' {
        return None;
    }
    let name = slice_of(&t, 0, t.len() - 1);
    assert(name@ =~= t@.drop_last());
    if name.len() == 0 {
        return None;
    }
    let mut i: usize = 0;
    while i < name.len()
        invariant
            i <= name.len(),
            forall|k: int| 0 <= k < i ==> is_service_char(#[trigger] name@[k]),
            name@ == trim(line@).drop_last(),
            name.len() > 0,
            starts_with(line@, "  "@) && !starts_with(line@, "    "@),
            trim(line@).len() > 0 && trim(line@).last() == ':',
        decreases name.len() - i,
    {
        let c = name[i];
        if !(('0' <= c && c <= '9') || ('a' <= c && c <= 'z') || ('A' <= c && c <= 'Z') || c == '_' || c == '-' || c == '.') {
            assert(!is_service_char(name@[i as int]));
            assert(!all_chars(name@, |c: char| is_service_char(c)));
            return None;
        }
        i += 1;
    }
    Some(string_of(&name))
}

/// The state of the line-based service scan.
pub struct SimpleScan {
    pub in_services: bool,
    pub current: Option<Seq<char>>,
    pub disabled: bool,
    pub services: Seq<ServiceView>,
    pub done: bool,
}

/// The services seen, with the current one closed.
pub open spec fn scan_close(st: SimpleScan) -> Seq<ServiceView> {
    match st.current {
        Some(n) => st.services.push(ComposeService { name: n, disabled: st.disabled }),
        None => st.services,
    }
}

/// One line of the scan: lines before `services:` are skipped, as are blank
/// and comment lines; an unindented line ends the section; a header starts
/// a service; a mention of `_disabled` marks the current one disabled.
pub open spec fn scan_line(st: SimpleScan, line: Seq<char>) -> SimpleScan {
    let t = trim(line);
    if st.done {
        st
    } else if !st.in_services {
        if t == "services:"@ { SimpleScan { in_services: true, ..st } } else { st }
    } else if t.len() == 0 || starts_with(t, "#"@) {
        st
    } else if !starts_with(line, " "@) && !starts_with(line, "\t"@) {
        SimpleScan { services: scan_close(st), current: None, done: true, ..st }
    } else {
        match service_header(line) {
            Some(name) => SimpleScan { services: scan_close(st), current: Some(name), disabled: false, ..st },
            None => if st.current is Some && contains(line, "_disabled"@) {
                SimpleScan { disabled: true, ..st }
            } else {
                st
            },
        }
    }
}

/// The scan over lines.
pub open spec fn scan_lines(ls: Seq<Seq<char>>) -> SimpleScan
    decreases ls.len(),
{
    if ls.len() == 0 {
        SimpleScan { in_services: false, current: None, disabled: false, services: Seq::<ServiceView>::empty(), done: false }
    } else {
        scan_line(scan_lines(ls.drop_last()), ls.last())
    }
}

/// The services the line-based fallback finds in compose text.
pub open spec fn simple_services(content: Seq<char>) -> Seq<ServiceView> {
    scan_close(scan_lines(lines(content)))
}

/// Simple line-based reading of the compose services, for when the text is
/// not valid YAML.
pub fn parse_declared_services_simple(content: &str) -> (r: Vec<ComposeService>)
    ensures
        services_view(r@) == simple_services(content@),
{
    let ls = lines_chars(&chars_of(content));
    let ghost lv = lines(content@);
    let mut in_services = false;
    let mut current: Option<String> = None;
    let mut disabled = false;
    let mut services: Vec<ComposeService> = Vec::new();
    let mut done = false;
    assert(services_view(services@) =~= Seq::<ServiceView>::empty());
    let mut i: usize = 0;
    while i < ls.len()
        invariant
            i <= ls.len(),
            ls@.len() == lv.len(),
            forall|k: int| 0 <= k < lv.len() ==> #[trigger] ls@[k]@ == lv[k],
            scan_lines(lv.take(i as int)) == (SimpleScan {
                in_services: in_services,
                current: opt_view(current),
                disabled: disabled,
                services: services_view(services@),
                done: done,
            }),
        decreases ls.len() - i,
    {
        assert(lv.take(i + 1).drop_last() =~= lv.take(i as int));
        let line = string_of(&ls[i]);
        assert(line@ == lv[i as int]);
        let t = trim_chars(&ls[i]);
        let ghost before = services_view(services@);
        if done {
        } else if !in_services {
            if eq_lit(&t, "services:") {
                in_services = true;
            }
        } else if t.len() == 0 || has_prefix_lit(&t, "#") {
        } else if !has_prefix_lit(&ls[i], " ") && !has_prefix_lit(&ls[i], "\t") {
            match current {
                Some(n) => {
                    services.push(ComposeService { name: n, disabled });
                    assert(services_view(services@) =~= before.push(ComposeService { name: opt_view(current)->0, disabled: disabled }));
                },
                None => {},
            }
            current = None;
            done = true;
        } else {
            match parse_service_header(line.as_str()) {
                Some(name) => {
                    match current {
                        Some(n) => {
                            services.push(ComposeService { name: n, disabled });
                            assert(services_view(services@) =~= before.push(ComposeService { name: opt_view(current)->0, disabled: disabled }));
                        },
                        None => {},
                    }
                    current = Some(name);
                    disabled = false;
                },
                None => {
                    if current.is_some() && contains_chars(&ls[i], &chars_of("_disabled")) {
                        disabled = true;
                    }
                },
            }
        }
        i += 1;
    }
    assert(lv.take(ls.len() as int) =~= lv);
    let ghost before = services_view(services@);
    match current {
        Some(n) => {
            services.push(ComposeService { name: n, disabled });
            assert(services_view(services@) =~= before.push(ComposeService { name: opt_view(current)->0, disabled: disabled }));
        },
        None => {},
    }
    services
}

/// What the service listing reads of a YAML compose document: the entries
/// of its `services` mapping, if it has one, each with its key (when the
/// key is a string) and its `profiles` sequence (when it has one; each
/// profile as text when it is a string).
#[derive(Clone, Debug)]
pub struct ComposeDoc {
    pub services: Option<Vec<ComposeEntry>>,
}

/// One entry of the `services` mapping.
#[derive(Clone, Debug)]
pub struct ComposeEntry {
    pub key: Option<String>,
    pub profiles: Option<Vec<Option<String>>>,
}

/// What a compose entry holds: its key as text (when a string) and its
/// profiles (when a sequence; each as text when a string).
pub type EntryView = (Option<Seq<char>>, Option<Seq<Option<Seq<char>>>>);

/// The profiles of an entry, each as text when it is a string.
pub open spec fn profiles_view(ps: Seq<Option<String>>) -> Seq<Option<Seq<char>>> {
    ps.map_values(|p: Option<String>| opt_view(p))
}

/// What an entry holds, as plain values.
pub open spec fn entry_view(e: ComposeEntry) -> EntryView {
    (
        opt_view(e.key),
        match e.profiles {
            Some(ps) => Some(profiles_view(ps@)),
            None => None,
        },
    )
}

/// The entries of a `services` mapping, as plain values.
pub open spec fn entries_view(es: Seq<ComposeEntry>) -> Seq<EntryView> {
    es.map_values(|e: ComposeEntry| entry_view(e))
}

/// What the service listing reads of a document: the entries of its
/// `services` mapping, `None` when it has none.
pub open spec fn compose_doc_view(d: ComposeDoc) -> Option<Seq<EntryView>> {
    match d.services {
        Some(es) => Some(entries_view(es@)),
        None => None,
    }
}

/// What `serde_yaml` reads of a compose file's text: `None` when the text
/// is not YAML; else the entries of the document's `services` mapping, or
/// `None` when the document has no such mapping.
pub uninterp spec fn compose_yaml(content: Seq<char>) -> Option<Option<Seq<EntryView>>>;

/// Parses a compose file's text as YAML with `serde_yaml::from_str` into a
/// `serde_yaml::Value`, and keeps what the service listing reads of it: the
/// `services` mapping (`Value::get` and `as_mapping`), in the mapping's
/// order, and for each entry its key (`as_str`) and its `profiles` sequence
/// (`get`, `as_sequence`, and `as_str` of each item). The contract claims
/// only that the result is a function of the text, named `compose_yaml`,
/// and `None` exactly when that parse fails.
#[verifier::external_body]
pub(crate) fn parse_compose_yaml(content: &str) -> (r: Option<ComposeDoc>)
    ensures
        match r {
            Some(d) => compose_yaml(content@) == Some(compose_doc_view(d)),
            None => compose_yaml(content@) is None,
        },
{
    let value = serde_yaml::from_str::<serde_yaml::Value>(content).ok()?;
    let services = value.get("services").and_then(|v| v.as_mapping()).map(|mapping| {
        mapping.iter().map(|(key, entry)| ComposeEntry {
            key: key.as_str().map(str::to_string),
            profiles: entry.get("profiles").and_then(|p| p.as_sequence())
                .map(|items| items.iter().map(|p| p.as_str().map(str::to_string)).collect()),
        }).collect()
    });
    Some(ComposeDoc { services })
}

/// Whether some string profile mentions `_disabled`.
pub open spec fn profiles_disabled(profiles: Seq<Option<Seq<char>>>) -> bool {
    exists|k: int| 0 <= k < profiles.len() && ((#[trigger] profiles[k]) matches Some(p) && contains(p, "_disabled"@))
}

/// The services of a YAML document, in mapping order: entries with a
/// string key, disabled when a profile mentions `_disabled`.
pub open spec fn doc_services(entries: Seq<EntryView>) -> Seq<ServiceView>
    decreases entries.len(),
{
    if entries.len() == 0 {
        Seq::<ServiceView>::empty()
    } else {
        let prev = doc_services(entries.drop_last());
        let e = entries.last();
        match e.0 {
            Some(name) => prev.push(ComposeService {
                name: name,
                disabled: match e.1 {
                    Some(ps) => profiles_disabled(ps),
                    None => false,
                },
            }),
            None => prev,
        }
    }
}

fn any_disabled(profiles: &Vec<Option<String>>) -> (r: bool)
    ensures
        r == profiles_disabled(profiles_view(profiles@)),
{
    let marker = chars_of("_disabled");
    let ghost pv = profiles_view(profiles@);
    let mut i: usize = 0;
    while i < profiles.len()
        invariant
            i <= profiles.len(),
            marker@ == "_disabled"@,
            pv == profiles_view(profiles@),
            forall|k: int| 0 <= k < i ==> !((#[trigger] pv[k]) matches Some(p) && contains(p, "_disabled"@)),
        decreases profiles.len() - i,
    {
        assert(pv[i as int] == opt_view(profiles@[i as int]));
        match &profiles[i] {
            Some(p) => {
                if contains_chars(&chars_of(p.as_str()), &marker) {
                    assert(pv[i as int] matches Some(q) && contains(q, "_disabled"@));
                    return true;
                }
            },
            None => {},
        }
        i += 1;
    }
    false
}

/// Lists the services of a parsed YAML compose document.
pub fn declared_services_from_doc(doc: &ComposeDoc) -> (r: Vec<ComposeService>)
    ensures
        services_view(r@) == match compose_doc_view(*doc) {
            Some(es) => doc_services(es),
            None => Seq::<ServiceView>::empty(),
        },
{
    let mut out: Vec<ComposeService> = Vec::new();
    assert(services_view(out@) =~= Seq::<ServiceView>::empty());
    match &doc.services {
        None => out,
        Some(entries) => {
            let ghost ev = entries_view(entries@);
            let mut i: usize = 0;
            while i < entries.len()
                invariant
                    i <= entries.len(),
                    ev == entries_view(entries@),
                    services_view(out@) == doc_services(ev.take(i as int)),
                decreases entries.len() - i,
            {
                assert(ev.take(i + 1).drop_last() =~= ev.take(i as int));
                assert(ev.take(i + 1).last() == entry_view(entries@[i as int]));
                let e = &entries[i];
                match &e.key {
                    Some(name) => {
                        let disabled = match &e.profiles {
                            Some(ps) => any_disabled(ps),
                            None => false,
                        };
                        let ghost before = services_view(out@);
                        out.push(ComposeService { name: name.clone(), disabled });
                        assert(services_view(out@) =~= before.push(ComposeService { name: name@, disabled: disabled }));
                    },
                    None => {},
                }
                i += 1;
            }
            assert(ev.take(entries.len() as int) =~= ev);
            out
        },
    }
}

/// Lists the services of one compose file: `doc` is the parsed YAML
/// document, or `None` when the text did not parse.
pub fn file_declared_services(doc: Option<&ComposeDoc>, content: &str) -> (r: Vec<ComposeService>)
    ensures
        services_view(r@) == match doc {
            Some(d) => match compose_doc_view(*d) {
                Some(es) => doc_services(es),
                None => Seq::<ServiceView>::empty(),
            },
            None => simple_services(content@),
        },
{
    match doc {
        Some(d) => declared_services_from_doc(d),
        None => parse_declared_services_simple(content),
    }
}

/// The services one compose file declares: those of the YAML document's
/// `services` mapping when the text parses as YAML (none when the document
/// has no such mapping), else those the line-based reader finds.
pub open spec fn compose_file_services_spec(content: Seq<char>) -> Seq<ServiceView> {
    match compose_yaml(content) {
        Some(Some(es)) => doc_services(es),
        Some(None) => Seq::<ServiceView>::empty(),
        None => simple_services(content),
    }
}

/// Lists the services one compose file declares, parsing its text as YAML
/// and falling back to the line-based reader when it is not YAML.
pub fn compose_file_services(content: &str) -> (r: Vec<ComposeService>)
    ensures
        services_view(r@) == compose_file_services_spec(content@),
{
    let doc = parse_compose_yaml(content);
    match &doc {
        Some(d) => file_declared_services(Some(d), content),
        None => file_declared_services(None, content),
    }
}

/// `acc` followed by the services of `more` whose names it lacks, the first
/// of each name winning.
pub open spec fn merged_services(acc: Seq<ServiceView>, more: Seq<ServiceView>) -> Seq<ServiceView>
    decreases more.len(),
{
    if more.len() == 0 {
        acc
    } else {
        let prev = merged_services(acc, more.drop_last());
        if declares(prev, more.last().name) { prev } else { prev.push(more.last()) }
    }
}

/// Adds the services of another compose file, keeping the first of each name.
pub fn merge_services(acc: &mut Vec<ComposeService>, more: Vec<ComposeService>)
    ensures
        services_view(final(acc)@) == merged_services(services_view(old(acc)@), services_view(more@)),
{
    let ghost a0 = services_view(acc@);
    let ghost mv = services_view(more@);
    let mut i: usize = 0;
    while i < more.len()
        invariant
            i <= more.len(),
            mv == services_view(more@),
            services_view(acc@) == merged_services(a0, mv.take(i as int)),
        decreases more.len() - i,
    {
        assert(mv.take(i + 1).drop_last() =~= mv.take(i as int));
        assert(mv[i as int] == more@[i as int]@);
        if !service_declared(acc.as_slice(), more[i].name.as_str()) {
            let ghost before = services_view(acc@);
            acc.push(ComposeService { name: more[i].name.clone(), disabled: more[i].disabled });
            assert(services_view(acc@) =~= before.push(mv[i as int]));
        }
        i += 1;
    }
    assert(mv.take(more.len() as int) =~= mv);
}

// ---------------------------------------------------------------------------
// Running containers
// ---------------------------------------------------------------------------

/// The `docker inspect` format that prints a container's mount source for
/// the worktree mount point, its compose service label, and its name,
/// separated by `|`.
pub open spec fn inspect_template_text(worktree_mount: Seq<char>) -> Seq<char> {
    "{{range .Mounts}}{{if eq .Destination \""@ + worktree_mount + "\"}}{{.Source}}{{end}}{{end}}|{{with .Config.Labels}}{{index . \""@
        + COMPOSE_SERVICE_LABEL@ + "\"}}{{end}}|{{.Name}}"@
}

/// Builds the `docker inspect` format for a mount point.
pub fn inspect_template(worktree_mount: &str) -> (r: String)
    ensures
        r@ == inspect_template_text(worktree_mount@),
{
    let mut out = "{{range .Mounts}}{{if eq .Destination \"".to_string();
    push_str(&mut out, worktree_mount);
    push_str(&mut out, "\"}}{{.Source}}{{end}}{{end}}|{{with .Config.Labels}}{{index . \"");
    push_str(&mut out, COMPOSE_SERVICE_LABEL);
    push_str(&mut out, "\"}}{{end}}|{{.Name}}");
    out
}

/// The container ids `docker ps -q` printed: its trimmed non-empty lines.
pub open spec fn container_ids_spec(ls: Seq<Seq<char>>) -> Seq<Seq<char>>
    decreases ls.len(),
{
    if ls.len() == 0 {
        Seq::<Seq<char>>::empty()
    } else if trim(ls.last()).len() > 0 {
        container_ids_spec(ls.drop_last()).push(trim(ls.last()))
    } else {
        container_ids_spec(ls.drop_last())
    }
}

/// Reads the container ids `docker ps -q` printed.
pub fn container_ids(output: &str) -> (r: Vec<String>)
    ensures
        r@.map_values(|w: String| w@) == container_ids_spec(lines(output@)),
{
    let ls = lines_chars(&chars_of(output));
    let ghost lv = lines(output@);
    let mut out: Vec<String> = Vec::new();
    let mut i: usize = 0;
    while i < ls.len()
        invariant
            i <= ls.len(),
            ls@.len() == lv.len(),
            forall|k: int| 0 <= k < lv.len() ==> #[trigger] ls@[k]@ == lv[k],
            out@.map_values(|w: String| w@) == container_ids_spec(lv.take(i as int)),
        decreases ls.len() - i,
    {
        assert(lv.take(i + 1).drop_last() =~= lv.take(i as int));
        let t = trim_chars(&ls[i]);
        if t.len() > 0 {
            let ghost before = out@.map_values(|w: String| w@);
            out.push(string_of(&t));
            assert(out@.map_values(|w: String| w@) =~= before.push(trim(lv[i as int])));
        }
        i += 1;
    }
    assert(lv.take(ls.len() as int) =~= lv);
    out
}

/// The fields of an inspect line, as `splitn(3, '|')` cuts it: the source
/// (none when empty), the trimmed service label (none when empty), and the
/// trimmed name without leading `/`.
pub open spec fn inspect_fields(output: Seq<char>) -> Option<(Seq<char>, Option<Seq<char>>, Seq<char>)> {
    let t = trim(output);
    let (source, rest) = match index_of(t, '|') {
        Some(k) => (t.take(k), Some(t.skip(k + 1))),
        None => (t, None),
    };
    if source.len() == 0 {
        None
    } else {
        let (service, name) = match rest {
            None => (None, Seq::<char>::empty()),
            Some(r) => match index_of(r, '|') {
                Some(k) => (Some(trim(r.take(k))), trim_start_char(trim(r.skip(k + 1)), '/')),
                None => (Some(trim(r)), Seq::<char>::empty()),
            },
        };
        Some((source, match service {
            Some(sv) => if sv.len() > 0 { Some(sv) } else { None },
            None => None,
        }, name))
    }
}

/// Reads the mount source, service label and name `docker inspect` printed
/// for a container; `None` when the container does not mount the worktree
/// mount point.
pub fn parse_inspect(output: &str) -> (r: Option<(String, Option<String>, String)>)
    ensures
        match inspect_fields(output@) {
            Some((src, svc, name)) => r matches Some((a, b, c)) && a@ == src && opt_view(b) == svc && c@ == name,
            None => r is None,
        },
{
    let t = trim_chars(&chars_of(output));
    let (source, rest) = match first_index_of(&t, '|') {
        Some(k) => (slice_of(&t, 0, k), Some(slice_of(&t, k + 1, t.len()))),
        None => (slice_of(&t, 0, t.len()), None),
    };
    proof {
        assert(t@.subrange(0, t@.len() as int) =~= t@);
        match index_of(t@, '|') {
            Some(k) => {
                assert(t@.subrange(0, k) =~= t@.take(k));
                assert(t@.subrange(k + 1, t@.len() as int) =~= t@.skip(k + 1));
            },
            None => {},
        }
    }
    if source.len() == 0 {
        return None;
    }
    let (service, name) = match rest {
        None => (None, String::new()),
        Some(r) => match first_index_of(&r, '|') {
            Some(k) => {
                let svc = trim_chars(&slice_of(&r, 0, k));
                let nm = trim_start_char_chars(&trim_chars(&slice_of(&r, k + 1, r.len())), '/');
                proof {
                    assert(r@.subrange(0, k as int) =~= r@.take(k as int));
                    assert(r@.subrange(k + 1, r@.len() as int) =~= r@.skip(k + 1));
                }
                (Some(svc), string_of(&nm))
            },
            None => (Some(trim_chars(&r)), String::new()),
        },
    };
    let service = match service {
        Some(sv) => if sv.len() > 0 { Some(string_of(&sv)) } else { None },
        None => None,
    };
    proof {
        reveal_strlit("");
    }
    Some((string_of(&source), service, name))
}

// ---------------------------------------------------------------------------
// Running the command
// ---------------------------------------------------------------------------

/// The command run inside the container: the one given, else `bash`.
pub open spec fn dx_command(command: Seq<Seq<char>>) -> Seq<Seq<char>> {
    if command.len() == 0 { seq!["bash"@] } else { command }
}

/// What `gat dx` runs: `docker exec -ti <container> <command>` when a
/// container runs for the worktree, else `docker compose run --rm
/// <service> <command>` from the compose directory, else the plan's issue.
pub open spec fn dx_invocation(
    exec_target: Option<ContainerView>,
    compose_target: Option<ChoiceView>,
    issue: Option<Seq<char>>,
    command: Seq<Seq<char>>,
) -> core::result::Result<Seq<Seq<char>>, ErrorView> {
    match exec_target {
        Some(c) => Ok(seq!["exec"@, "-ti"@, c.id] + dx_command(command)),
        None => match compose_target {
            Some(s) => Ok(seq!["compose"@, "run"@, "--rm"@, s.name] + dx_command(command)),
            None => Err(GatError::Io(match issue {
                Some(i) => i,
                None => "unable to determine docker action for the current worktree"@,
            })),
        },
    }
}

/// The `docker` arguments `gat dx` runs; for the compose form, they run
/// from the plan's compose directory.
pub fn dx_args(plan: &DockerPlan, command: &[String]) -> (r: Result<Vec<String>>)
    ensures
        match dx_invocation(match plan.exec_target { Some(c) => Some(c@), None => None }, choice_view(plan.compose_target),
            opt_view(plan.issue), command@.map_values(|w: String| w@)) {
            Ok(a) => r matches Ok(v) && v@.map_values(|w: String| w@) == a,
            Err(e) => r matches Err(x) && x@ == e,
        },
{
    let ghost cv = command@.map_values(|w: String| w@);
    let mut args: Vec<String> = Vec::new();
    match &plan.exec_target {
        Some(c) => {
            args.push("exec".to_string());
            args.push("-ti".to_string());
            args.push(c.id.clone());
        },
        None => match &plan.compose_target {
            Some(s) => {
                args.push("compose".to_string());
                args.push("run".to_string());
                args.push("--rm".to_string());
                args.push(s.name.clone());
            },
            None => {
                return Err(GatError::Io(match &plan.issue {
                    Some(i) => i.clone(),
                    None => "unable to determine docker action for the current worktree".to_string(),
                }));
            },
        },
    }
    let ghost head = args@.map_values(|w: String| w@);
    if command.len() == 0 {
        args.push("bash".to_string());
        assert(args@.map_values(|w: String| w@) =~= head + dx_command(cv));
    } else {
        let mut i: usize = 0;
        while i < command.len()
            invariant
                i <= command.len(),
                cv == command@.map_values(|w: String| w@),
                args@.map_values(|w: String| w@) == head + cv.take(i as int),
            decreases command.len() - i,
        {
            let ghost before = args@.map_values(|w: String| w@);
            assert(cv[i as int] == command@[i as int]@);
            args.push(command[i].clone());
            assert(args@.map_values(|w: String| w@) =~= before.push(cv[i as int]));
            assert(head + cv.take(i + 1) =~= (head + cv.take(i as int)).push(cv[i as int]));
            i += 1;
        }
        assert(cv.take(command.len() as int) =~= cv);
    }
    Ok(args)
}

/// The error for a docker command that exited unsuccessfully.
pub open spec fn exit_status_spec(command: Seq<char>, code: Option<i32>) -> ErrorView {
    GatError::Io(command + " exited with status "@ + match code {
        Some(c) => signed_decimal(c as int),
        None => "unknown"@,
    })
}

/// Checks a docker command's exit: success, or an error with its code.
pub fn exit_status_ok(success: bool, code: Option<i32>, command: &str) -> (r: Result<()>)
    ensures
        success ==> r is Ok,
        !success ==> (r matches Err(e) && e@ == exit_status_spec(command@, code)),
{
    if success {
        return Ok(());
    }
    let mut m = command.to_string();
    push_str(&mut m, " exited with status ");
    match code {
        Some(c) => push_str(&mut m, signed_decimal_string(c).as_str()),
        None => push_str(&mut m, "unknown"),
    }
    Err(GatError::Io(m))
}

/// The error for a failed `docker` query.
pub open spec fn docker_failure_spec(args: Seq<Seq<char>>, stderr: Seq<char>) -> ErrorView {
    GatError::Io("docker "@ + join_words(args) + " failed\n"@ + trim(stderr))
}

/// The error for a failed `docker` query.
pub fn docker_failure(args: &[String], stderr: &str) -> (e: GatError)
    ensures
        e@ == docker_failure_spec(args@.map_values(|w: String| w@), stderr@),
{
    let mut m = "docker ".to_string();
    push_str(&mut m, join_with_spaces(args).as_str());
    push_str(&mut m, " failed\n");
    push_str(&mut m, string_of(&trim_chars(&chars_of(stderr))).as_str());
    GatError::Io(m)
}

// ---------------------------------------------------------------------------
// The `gat dx doctor` report
// ---------------------------------------------------------------------------

/// One line of the declared-services section.
pub open spec fn declared_line(s: ServiceView) -> Seq<char> {
    if s.disabled { "  - "@ + s.name + " (disabled)\n"@ } else { "  - "@ + s.name + "\n"@ }
}

/// The declared-services lines, in order.
pub open spec fn declared_lines(s: Seq<ServiceView>) -> Seq<char>
    decreases s.len(),
{
    if s.len() == 0 { Seq::empty() } else { declared_lines(s.drop_last()) + declared_line(s.last()) }
}

/// The declared-services section.
pub open spec fn declared_section(s: Seq<ServiceView>) -> Seq<char> {
    if s.len() == 0 { "Declared services: none\n"@ } else { "Declared services:\n"@ + declared_lines(s) }
}

/// One line of the running-containers section.
pub open spec fn container_line(c: ContainerView) -> Seq<char> {
    "  - id="@ + c.id + " name="@ + c.name + " service="@
        + (match c.service { Some(x) => x, None => "<unknown>"@ }) + " root="@ + c.worktree_root + "\n"@
}

/// The running-container lines, in order.
pub open spec fn container_lines(cs: Seq<ContainerView>) -> Seq<char>
    decreases cs.len(),
{
    if cs.len() == 0 { Seq::empty() } else { container_lines(cs.drop_last()) + container_line(cs.last()) }
}

/// The running-containers section.
pub open spec fn container_section(cs: Seq<ContainerView>) -> Seq<char> {
    if cs.len() == 0 {
        "Running containers for worktree: none\n"@
    } else {
        "Running containers for worktree:\n"@ + container_lines(cs)
    }
}

/// The selected-service line.
pub open spec fn selected_line(c: Option<ChoiceView>) -> Seq<char> {
    match c {
        Some(x) => "Selected service: "@ + x.name + " ("@ + x.source + ")\n"@,
        None => "Selected service: unresolved\n"@,
    }
}

/// The action line: exec into a container, run the service, or nothing.
pub open spec fn action_line(exec_target: Option<ContainerView>, compose_target: Option<ChoiceView>) -> Seq<char> {
    match exec_target {
        Some(c) => "Action: docker exec -ti "@ + c.id + " <command>\n"@,
        None => match compose_target {
            Some(s) => "Action: docker compose run --rm "@ + s.name + " <command>\n"@,
            None => "Action: unresolved\n"@,
        },
    }
}

/// The issue line, when there is an issue.
pub open spec fn issue_line(issue: Option<Seq<char>>) -> Seq<char> {
    match issue {
        Some(i) => "Issue: "@ + i + "\n"@,
        None => Seq::empty(),
    }
}

/// The head of the report: paths, files, docker and the mount point.
pub open spec fn doctor_head(plan: &DockerPlan, docker_available: bool) -> Seq<char> {
    "gat dx doctor\nWorktree root: "@ + plan.worktree_root@ + "\nCompose dir: "@ + plan.compose_dir@
        + "\nCompose file: "@ + yes_no_spec(plan.compose_file_exists) + "\nOverride file: "@
        + yes_no_spec(plan.override_file_exists) + "\nDocker available: "@ + yes_no_spec(docker_available)
        + "\nWorktree mount: "@ + plan.worktree_mount@ + "\n"@
}

/// The whole `gat dx doctor` report for a plan.
pub open spec fn doctor_text(plan: &DockerPlan, docker_available: bool) -> Seq<char> {
    doctor_head(plan, docker_available) + selected_line(choice_view(plan.selected_service))
        + declared_section(services_view(plan.declared_services@))
        + container_section(containers_view(plan.running_containers@))
        + action_line(
        match plan.exec_target {
            Some(c) => Some(c@),
            None => None,
        },
        choice_view(plan.compose_target),
    ) + issue_line(opt_view(plan.issue))
}

fn doctor_head_string(plan: &DockerPlan, docker_available: bool) -> (r: String)
    ensures
        r@ == doctor_head(plan, docker_available),
{
    let mut out = String::new();
    push_str(&mut out, "gat dx doctor\nWorktree root: ");
    assert(out@ =~= "gat dx doctor\nWorktree root: "@);
    push_str(&mut out, plan.worktree_root.as_str());
    push_str(&mut out, "\nCompose dir: ");
    push_str(&mut out, plan.compose_dir.as_str());
    push_str(&mut out, "\nCompose file: ");
    push_str(&mut out, yes_no(plan.compose_file_exists));
    push_str(&mut out, "\nOverride file: ");
    push_str(&mut out, yes_no(plan.override_file_exists));
    push_str(&mut out, "\nDocker available: ");
    push_str(&mut out, yes_no(docker_available));
    push_str(&mut out, "\nWorktree mount: ");
    push_str(&mut out, plan.worktree_mount.as_str());
    push_str(&mut out, "\n");
    out
}

fn declared_lines_string(services: &[ComposeService]) -> (r: String)
    ensures
        r@ == declared_lines(services_view(services@)),
{
    let ghost sv = services_view(services@);
    let mut out = String::new();
    assert(sv.take(0) =~= Seq::<ServiceView>::empty());
    assert(out@ =~= declared_lines(sv.take(0)));
    let mut i: usize = 0;
    while i < services.len()
        invariant
            i <= services.len(),
            sv == services_view(services@),
            out@ == declared_lines(sv.take(i as int)),
        decreases services.len() - i,
    {
        assert(sv.take(i + 1).drop_last() =~= sv.take(i as int));
        assert(sv.take(i + 1).last() == services@[i as int]@);
        let ghost before = out@;
        let s = &services[i];
        push_str(&mut out, "  - ");
        push_str(&mut out, s.name.as_str());
        if s.disabled {
            push_str(&mut out, " (disabled)\n");
        } else {
            push_str(&mut out, "\n");
        }
        assert(out@ =~= before + declared_line(s@));
        i += 1;
    }
    assert(sv.take(services.len() as int) =~= sv);
    out
}

fn container_lines_string(containers: &[RunningContainer]) -> (r: String)
    ensures
        r@ == container_lines(containers_view(containers@)),
{
    let ghost cv = containers_view(containers@);
    let mut out = String::new();
    assert(cv.take(0) =~= Seq::<ContainerView>::empty());
    assert(out@ =~= container_lines(cv.take(0)));
    let mut i: usize = 0;
    while i < containers.len()
        invariant
            i <= containers.len(),
            cv == containers_view(containers@),
            out@ == container_lines(cv.take(i as int)),
        decreases containers.len() - i,
    {
        assert(cv.take(i + 1).drop_last() =~= cv.take(i as int));
        assert(cv.take(i + 1).last() == containers@[i as int]@);
        let ghost before = out@;
        let c = &containers[i];
        push_str(&mut out, "  - id=");
        push_str(&mut out, c.id.as_str());
        push_str(&mut out, " name=");
        push_str(&mut out, c.name.as_str());
        push_str(&mut out, " service=");
        match &c.service {
            Some(x) => push_str(&mut out, x.as_str()),
            None => push_str(&mut out, "<unknown>"),
        }
        push_str(&mut out, " root=");
        push_str(&mut out, c.worktree_root.as_str());
        push_str(&mut out, "\n");
        assert(out@ =~= before + container_line(c@));
        i += 1;
    }
    assert(cv.take(containers.len() as int) =~= cv);
    out
}

fn selected_line_string(c: &Option<ServiceChoice>) -> (r: String)
    ensures
        r@ == selected_line(choice_view(*c)),
{
    match c {
        Some(x) => {
            let mut out = String::new();
            push_str(&mut out, "Selected service: ");
            assert(out@ =~= "Selected service: "@);
            push_str(&mut out, x.name.as_str());
            push_str(&mut out, " (");
            push_str(&mut out, x.source.as_str());
            push_str(&mut out, ")\n");
            out
        },
        None => "Selected service: unresolved\n".to_string(),
    }
}

fn declared_section_string(services: &[ComposeService]) -> (r: String)
    ensures
        r@ == declared_section(services_view(services@)),
{
    if services.len() == 0 {
        return "Declared services: none\n".to_string();
    }
    let mut out = "Declared services:\n".to_string();
    push_str(&mut out, declared_lines_string(services).as_str());
    out
}

fn container_section_string(containers: &[RunningContainer]) -> (r: String)
    ensures
        r@ == container_section(containers_view(containers@)),
{
    if containers.len() == 0 {
        return "Running containers for worktree: none\n".to_string();
    }
    let mut out = "Running containers for worktree:\n".to_string();
    push_str(&mut out, container_lines_string(containers).as_str());
    out
}

fn action_line_string(plan: &DockerPlan) -> (r: String)
    ensures
        r@ == action_line(
            match plan.exec_target {
                Some(c) => Some(c@),
                None => None,
            },
            choice_view(plan.compose_target),
        ),
{
    match &plan.exec_target {
        Some(c) => {
            let mut out = "Action: docker exec -ti ".to_string();
            push_str(&mut out, c.id.as_str());
            push_str(&mut out, " <command>\n");
            out
        },
        None => match &plan.compose_target {
            Some(s) => {
                let mut out = "Action: docker compose run --rm ".to_string();
                push_str(&mut out, s.name.as_str());
                push_str(&mut out, " <command>\n");
                out
            },
            None => "Action: unresolved\n".to_string(),
        },
    }
}

/// Renders the `gat dx doctor` report for a plan; `docker_available` says
/// whether a `docker` executable was found.
pub fn dx_doctor(plan: &DockerPlan, docker_available: bool) -> (r: String)
    ensures
        r@ == doctor_text(plan, docker_available),
{
    let mut out = doctor_head_string(plan, docker_available);
    push_str(&mut out, selected_line_string(&plan.selected_service).as_str());
    push_str(&mut out, declared_section_string(plan.declared_services.as_slice()).as_str());
    push_str(&mut out, container_section_string(plan.running_containers.as_slice()).as_str());
    push_str(&mut out, action_line_string(plan).as_str());
    match &plan.issue {
        Some(i) => {
            push_str(&mut out, "Issue: ");
            push_str(&mut out, i.as_str());
            push_str(&mut out, "\n");
        },
        None => {},
    }
    let ghost head = doctor_head(plan, docker_available);
    assert(out@ =~= doctor_text(plan, docker_available));
    out
}

} // verus!
