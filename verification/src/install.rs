//! The install-command builder: turns an identifier, a version string and
//! the install-time context into the external-process invocation, without
//! launching anything.

use vstd::prelude::*;
use vstd::string::StringExecFns;
use crate::errors::Error;
use crate::source::{SourceKind, SourceModel};
use crate::version_spec::{SpecifierModel, VersionSpecifier, parse_model};

verus! {

/// The fully resolved invocation handed to the external executor. Built
/// fresh per install call; never persisted; building it has no side effect.
#[derive(Debug, Clone, PartialEq, Eq)]
pub struct InstallPlan {
    /// The program to run.
    pub program: String,
    /// Its arguments, in order.
    pub args: Vec<String>,
    /// The environment overlay, name-value pairs in order.
    pub env: Vec<(String, String)>,
    /// The install root (also passed as the `--root` argument).
    pub install_root: String,
    /// Extra `PATH` entries, so the invoked tool sees already-installed
    /// prerequisite tools.
    pub path_prepend: Vec<String>,
}

/// The mathematical model of an [`InstallPlan`].
pub ghost struct PlanModel {
    pub program: Seq<char>,
    pub args: Seq<Seq<char>>,
    pub env: Seq<(Seq<char>, Seq<char>)>,
    pub install_root: Seq<char>,
    pub path_prepend: Seq<Seq<char>>,
}

impl InstallPlan {
    /// The model of this plan.
    pub open spec fn model(&self) -> PlanModel {
        PlanModel {
            program: self.program@,
            args: self.args.deep_view(),
            env: self.env.deep_view(),
            install_root: self.install_root@,
            path_prepend: self.path_prepend.deep_view(),
        }
    }
}

/// Whether the accelerated (binary) install path is taken: it must be both
/// enabled by configuration and available on this machine.
pub open spec fn binstall_choice(cargo_binstall: bool, binstall_available: bool) -> bool {
    cargo_binstall && binstall_available
}

/// The flags every branch appends: exact dependency versions, and an
/// explicit install root.
pub open spec fn locked_tail(root: Seq<char>) -> Seq<Seq<char>> {
    seq!["--locked"@, "--root"@, root]
}

/// The `name@version` argument of a registry-mode install.
pub open spec fn install_arg_chars(name: Seq<char>, version: Seq<char>) -> Seq<char> {
    name + seq!['@'] + version
}

/// The arguments of a git-sourced install: exactly one of `--rev=`,
/// `--branch=` or `--tag=` follows `--git=`, nothing extra for `HEAD`, and
/// a bare registry version is rejected.
pub open spec fn git_install_args(url: Seq<char>, v: SpecifierModel) -> Option<Seq<Seq<char>>> {
    match v {
        SpecifierModel::Head => Some(seq!["install"@, "--git="@ + url]),
        SpecifierModel::Rev(r) => Some(seq!["install"@, "--git="@ + url, "--rev="@ + r]),
        SpecifierModel::Branch(b) => Some(seq!["install"@, "--git="@ + url, "--branch="@ + b]),
        SpecifierModel::Tag(t) => Some(seq!["install"@, "--git="@ + url, "--tag="@ + t]),
        SpecifierModel::Registry(_) => None,
    }
}

/// The plan built for the given source, inputs and context, or `None`
/// where a git-sourced install received a bare registry version.
pub open spec fn plan_model_of(
    source: SourceModel,
    name: Seq<char>,
    version: Seq<char>,
    root: Seq<char>,
    binstall: bool,
    token: Option<Seq<char>>,
    env: Seq<(Seq<char>, Seq<char>)>,
    paths: Seq<Seq<char>>,
) -> Option<PlanModel> {
    match source {
        SourceModel::GitRemote(url) => match git_install_args(url, parse_model(version)) {
            Some(a) => Some(
                PlanModel {
                    program: "cargo"@,
                    args: a + locked_tail(root),
                    env: env,
                    install_root: root,
                    path_prepend: paths,
                },
            ),
            None => None,
        },
        SourceModel::Registry => if binstall {
            Some(
                PlanModel {
                    program: "cargo-binstall"@,
                    args: seq!["-y"@, install_arg_chars(name, version)] + locked_tail(root),
                    env: match token {
                        Some(t) => seq![("GITHUB_TOKEN"@, t)] + env,
                        None => env,
                    },
                    install_root: root,
                    path_prepend: paths,
                },
            )
        } else {
            Some(
                PlanModel {
                    program: "cargo"@,
                    args: seq!["install"@, install_arg_chars(name, version)] + locked_tail(root),
                    env: env,
                    install_root: root,
                    path_prepend: paths,
                },
            )
        },
    }
}

/// Copies a list of name-value pairs.
fn clone_string_pairs(v: &Vec<(String, String)>) -> (r: Vec<(String, String)>)
    ensures
        r.deep_view() == v.deep_view(),
{
    let mut out: Vec<(String, String)> = Vec::new();
    let mut i: usize = 0;
    while i < v.len()
        invariant
            0 <= i <= v.len(),
            out.len() == i,
            forall|j: int| 0 <= j < i ==> out.deep_view()[j] == v.deep_view()[j],
        decreases v.len() - i,
    {
        let p = &v[i];
        out.push((p.0.clone(), p.1.clone()));
        i = i + 1;
    }
    proof {
        assert(out.deep_view() =~= v.deep_view());
    }
    out
}

/// Copies a list of strings.
fn clone_strings(v: &Vec<String>) -> (r: Vec<String>)
    ensures
        r.deep_view() == v.deep_view(),
{
    let c = v.clone();
    proof {
        vstd::std_specs::vec::vec_clone_deep_view_proof(*v, c);
    }
    c
}

/// Builds the install plan. Fails with
/// [`Error::ExperimentalFeatureDisabled`] unless the caller has explicitly
/// enabled this backend (it executes registry-sourced build scripts), and
/// with [`Error::InvalidVersionSpec`] where a git-sourced install received
/// a version matching none of the recognized forms. Building the plan never
/// launches a process.
pub fn build_install_plan(
    source: &SourceKind,
    name: &str,
    version: &str,
    install_root: &str,
    experimental_enabled: bool,
    binstall_enabled: bool,
    github_token: &Option<String>,
    env: &Vec<(String, String)>,
    paths: &Vec<String>,
) -> (r: Result<InstallPlan, Error>)
    ensures
        !experimental_enabled ==> r == Err::<InstallPlan, Error>(
            Error::ExperimentalFeatureDisabled,
        ),
        experimental_enabled ==> match plan_model_of(
            source.model(),
            name@,
            version@,
            install_root@,
            binstall_enabled,
            github_token.deep_view(),
            env.deep_view(),
            paths.deep_view(),
        ) {
            Some(p) => r matches Ok(plan) && plan.model() == p,
            None => r matches Err(Error::InvalidVersionSpec(v)) && v@ == version@,
        },
{
    if !experimental_enabled {
        return Err(Error::ExperimentalFeatureDisabled);
    }
    let mut args: Vec<String> = Vec::new();
    let program: String;
    let mut env_out: Vec<(String, String)>;
    match source {
        SourceKind::GitRemote(url) => {
            args.push(String::from_str("install"));
            let mut git_arg = String::from_str("--git=");
            git_arg.append(url.as_str());
            args.push(git_arg);
            match VersionSpecifier::parse(version) {
                VersionSpecifier::Head => {},
                VersionSpecifier::Rev(rev) => {
                    let mut a = String::from_str("--rev=");
                    a.append(rev.as_str());
                    args.push(a);
                },
                VersionSpecifier::Branch(branch) => {
                    let mut a = String::from_str("--branch=");
                    a.append(branch.as_str());
                    args.push(a);
                },
                VersionSpecifier::Tag(tag) => {
                    let mut a = String::from_str("--tag=");
                    a.append(tag.as_str());
                    args.push(a);
                },
                VersionSpecifier::Registry(_) => {
                    return Err(Error::InvalidVersionSpec(String::from_str(version)));
                },
            }
            program = String::from_str("cargo");
            env_out = clone_string_pairs(env);
        },
        SourceKind::Registry => {
            let mut install_arg = String::from_str(name);
            install_arg.append("@");
            install_arg.append(version);
            proof {
                reveal_strlit("@");
                assert(install_arg@ =~= install_arg_chars(name@, version@));
            }
            if binstall_enabled {
                program = String::from_str("cargo-binstall");
                args.push(String::from_str("-y"));
                args.push(install_arg);
                env_out = Vec::new();
                match github_token {
                    Some(token) => {
                        env_out.push((String::from_str("GITHUB_TOKEN"), token.clone()));
                    },
                    None => {},
                }
                let rest = clone_string_pairs(env);
                let mut k: usize = 0;
                while k < rest.len()
                    invariant
                        0 <= k <= rest.len(),
                        rest.deep_view() == env.deep_view(),
                        env_out.deep_view() =~~= (match github_token.deep_view() {
                            Some(t) => seq![("GITHUB_TOKEN"@, t)] + env.deep_view().subrange(
                                0,
                                k as int,
                            ),
                            None => env.deep_view().subrange(0, k as int),
                        }),
                    decreases rest.len() - k,
                {
                    let p = &rest[k];
                    let pair = (p.0.clone(), p.1.clone());
                    proof {
                        assert(pair.deep_view() == env.deep_view()[k as int]);
                    }
                    env_out.push(pair);
                    proof {
                        assert(env.deep_view().subrange(0, k as int).push(
                            env.deep_view()[k as int],
                        ) =~= env.deep_view().subrange(0, k + 1));
                        match github_token.deep_view() {
                            Some(t) => {
                                assert(env_out.deep_view() =~~= seq![("GITHUB_TOKEN"@, t)]
                                    + env.deep_view().subrange(0, k + 1));
                            },
                            None => {
                                assert(env_out.deep_view() =~~= env.deep_view().subrange(
                                    0,
                                    k + 1,
                                ));
                            },
                        }
                    }
                    k = k + 1;
                }
                proof {
                    assert(env.deep_view().subrange(0, env.deep_view().len() as int)
                        =~= env.deep_view());
                }
            } else {
                program = String::from_str("cargo");
                args.push(String::from_str("install"));
                args.push(install_arg);
                env_out = clone_string_pairs(env);
            }
        },
    }
    args.push(String::from_str("--locked"));
    args.push(String::from_str("--root"));
    args.push(String::from_str(install_root));
    let plan = InstallPlan {
        program,
        args,
        env: env_out,
        install_root: String::from_str(install_root),
        path_prepend: clone_strings(paths),
    };
    proof {
        let m = plan_model_of(
            source.model(),
            name@,
            version@,
            install_root@,
            binstall_enabled,
            github_token.deep_view(),
            env.deep_view(),
            paths.deep_view(),
        );
        if m is Some {
            assert(plan.model().args =~= m->Some_0.args);
            assert(plan.model().env =~= m->Some_0.env);
        }
    }
    Ok(plan)
}

/// Law: building an install plan is deterministic — two plans built from
/// identical inputs (the externally injected token included) have identical
/// models.
pub proof fn lemma_build_idempotent(
    source: SourceModel,
    name: Seq<char>,
    version: Seq<char>,
    root: Seq<char>,
    binstall: bool,
    token: Option<Seq<char>>,
    env: Seq<(Seq<char>, Seq<char>)>,
    paths: Seq<Seq<char>>,
    m1: PlanModel,
    m2: PlanModel,
)
    requires
        plan_model_of(source, name, version, root, binstall, token, env, paths) == Some(m1),
        plan_model_of(source, name, version, root, binstall, token, env, paths) == Some(m2),
    ensures
        m1 == m2,
{
}

/// Law: where the accelerated-install path is unavailable, the standard
/// install branch is chosen even when acceleration is configured as
/// preferred: the plan runs `cargo install name@version`, and the token is
/// not placed in the environment.
pub proof fn lemma_standard_when_unavailable(
    name: Seq<char>,
    version: Seq<char>,
    root: Seq<char>,
    cargo_binstall: bool,
    token: Option<Seq<char>>,
    env: Seq<(Seq<char>, Seq<char>)>,
    paths: Seq<Seq<char>>,
)
    ensures
        ({
            let m = plan_model_of(
                SourceModel::Registry,
                name,
                version,
                root,
                binstall_choice(cargo_binstall, false),
                token,
                env,
                paths,
            );
            &&& m is Some
            &&& m->Some_0.program == "cargo"@
            &&& m->Some_0.args == seq!["install"@, install_arg_chars(name, version)]
                + locked_tail(root)
            &&& m->Some_0.env == env
        }),
{
}

} // verus!
