//! The cargo backend adapter: version discovery through the registry
//! sparse index (or a git short-circuit), the single-computation version
//! cache, and the translation of an install request into an external
//! invocation.

use vstd::prelude::*;
use vstd::string::StringExecFns;
use crate::cache::VersionListCache;
use crate::errors::Error;
use crate::install::{InstallPlan, binstall_choice, build_install_plan, plan_model_of};
use crate::registry::{crate_url_model, registry_versions_of};
use crate::source::{SourceKind, SourceModel, classify, classify_model};

verus! {

/// Which backend an adapter implements.
#[derive(Debug, Clone, Copy, PartialEq, Eq, Structural)]
pub enum BackendType {
    Cargo,
}

/// The immutable identifier of the package/tool being resolved: a name
/// (possibly a URL or a `user/repo` shorthand) and the storage location of
/// its cache.
#[derive(Debug, Clone, PartialEq, Eq)]
pub struct BackendArg {
    /// The package name, URL or `user/repo` shorthand.
    pub name: String,
    /// The directory under which this tool's caches are stored.
    pub cache_path: String,
}

/// The install-time context of one install call, as plain values.
#[derive(Debug, Clone, PartialEq, Eq)]
pub struct InstallContext {
    /// The requested version string.
    pub version: String,
    /// Where the tool is installed (the `--root` of the invocation).
    pub install_root: String,
    /// The environment overlay of the invocation.
    pub env: Vec<(String, String)>,
    /// Extra `PATH` entries for the invocation.
    pub paths: Vec<String>,
}

/// The cargo backend adapter for one identifier.
#[derive(Debug)]
pub struct CargoBackend {
    /// The identifier this adapter resolves.
    pub ba: BackendArg,
    /// The persisted, single-computation cache of the resolved version list.
    pub remote_version_cache: VersionListCache,
}

/// What listing versions through the registry yields, in terms of the
/// injected fetch collaborator: on success, some absolute URL equal to the
/// identifier's sparse-index locator was fetched, and the returned list is
/// the non-yanked versions decoded from the fetched document, in order. On
/// failure, either the locator was ill-formed, or the fetch collaborator
/// failed and its error is propagated verbatim, or the fetched document did
/// not decode.
pub open spec fn registry_fetch_outcome<F: FnOnce(&str) -> Result<String, Error>>(
    name: Seq<char>,
    fetch: F,
    r: Result<Vec<String>, Error>,
) -> bool {
    match r {
        Ok(v) => crate_url_model(name) is Some && exists|u: &str, body: String|
            u@ == crate_url_model(name)->Some_0 && #[trigger] call_ensures(
                fetch,
                (u,),
                Ok::<String, Error>(body),
            ) && registry_versions_of(body@) == Some(v.deep_view()),
        Err(e) => {
            ||| (crate_url_model(name) is None && e == Error::MalformedLocator)
            ||| (crate_url_model(name) is Some && exists|u: &str|
                u@ == crate_url_model(name)->Some_0 && #[trigger] call_ensures(
                    fetch,
                    (u,),
                    Err::<String, Error>(e),
                ))
            ||| (crate_url_model(name) is Some && e is DecodeFailure && exists|u: &str, body: String|
                u@ == crate_url_model(name)->Some_0 && #[trigger] call_ensures(
                    fetch,
                    (u,),
                    Ok::<String, Error>(body),
                ) && registry_versions_of(body@) is None)
        },
    }
}

/// Where the version list of the identifier is persisted: derived
/// deterministically from the identifier's cache path, so two adapters for
/// the same name share cache storage.
pub open spec fn cache_location_chars(cache_path: Seq<char>) -> Seq<char> {
    cache_path + "/remote_versions-$KEY.msgpack.z"@
}

impl CargoBackend {
    /// Builds the adapter for one identifier, with an empty version cache
    /// persisting under the identifier's cache path.
    pub fn from_arg(ba: BackendArg) -> (r: Self)
        ensures
            r.ba == ba,
            r.remote_version_cache.contents() is None,
            r.remote_version_cache.cache_location@ == cache_location_chars(ba.cache_path@),
    {
        let mut location = ba.cache_path.clone();
        location.append("/remote_versions-$KEY.msgpack.z");
        CargoBackend { remote_version_cache: VersionListCache::new(location), ba }
    }

    /// Which backend this adapter implements.
    pub fn get_type(&self) -> (r: BackendType)
        ensures
            r == BackendType::Cargo,
    {
        BackendType::Cargo
    }

    /// The identifier this adapter resolves.
    pub fn fa(&self) -> (r: &BackendArg)
        ensures
            r == &self.ba,
    {
        &self.ba
    }

    /// The package name of the identifier.
    pub fn name(&self) -> (r: &String)
        ensures
            r == &self.ba.name,
    {
        &self.ba.name
    }

    /// The dependencies that must be present before this backend can run:
    /// a compiler toolchain and its package manager.
    pub fn get_dependencies(&self) -> (r: Vec<String>)
        ensures
            r.deep_view() =~= seq!["cargo"@, "rust"@],
    {
        let mut deps: Vec<String> = Vec::new();
        deps.push(String::from_str("cargo"));
        deps.push(String::from_str("rust"));
        deps
    }

    /// Whether the accelerated (binary) install path is taken: it must be
    /// both enabled by configuration and available on this machine.
    pub fn is_binstall_enabled(&self, cargo_binstall: bool, binstall_available: bool) -> (r: bool)
        ensures
            r == binstall_choice(cargo_binstall, binstall_available),
    {
        cargo_binstall && binstall_available
    }

    /// Lists the installable versions of the identifier. A git-sourced
    /// identifier yields exactly `["HEAD"]`, bypassing the cache (discrete
    /// versions are not enumerated for git remotes). A registry identifier
    /// goes through the single-computation cache: a cached list is returned
    /// as it is; otherwise the sparse-index document is fetched through the
    /// injected `fetch` collaborator, decoded, filtered of yanked entries,
    /// and the successful result is cached. No failure is cached.
    pub fn _list_remote_versions<F: FnOnce(&str) -> Result<String, Error>>(
        &mut self,
        fetch: F,
    ) -> (r: Result<Vec<String>, Error>)
        requires
            forall|u: &str| call_requires(fetch, (u,)),
            old(self).ba.name@.len() >= 1,
        ensures
            final(self).ba == old(self).ba,
            final(self).remote_version_cache.cache_location@ == old(
                self,
            ).remote_version_cache.cache_location@,
            (classify_model(old(self).ba.name@) matches SourceModel::GitRemote(_)) ==> ({
                &&& r matches Ok(v) && v.deep_view() == seq!["HEAD"@]
                &&& final(self).remote_version_cache.contents() == old(
                    self,
                ).remote_version_cache.contents()
            }),
            (classify_model(old(self).ba.name@) == SourceModel::Registry) ==> ({
                let pre = old(self).remote_version_cache.contents();
                let post = final(self).remote_version_cache.contents();
                &&& crate::cache::get_or_compute_step(
                    pre,
                    post,
                    match r {
                        Ok(v) => Some(v.deep_view()),
                        Err(_) => None,
                    },
                )
                &&& (pre matches Some(s) ==> r matches Ok(v) && v.deep_view() == s)
                &&& (pre is None ==> registry_fetch_outcome(old(self).ba.name@, fetch, r))
            }),
    {
        match self.git_url() {
            Some(_) => {
                let mut head: Vec<String> = Vec::new();
                head.push(String::from_str("HEAD"));
                proof {
                    assert(head.deep_view() =~= seq!["HEAD"@]);
                }
                Ok(head)
            },
            None => {
                let name_ref: &String = &self.ba.name;
                let compute = move || -> (cr: Result<Vec<String>, Error>)
                    ensures
                        registry_fetch_outcome(name_ref@, fetch, cr),
                    {
                        let url = match crate::registry::get_crate_url(name_ref.as_str()) {
                            Ok(u) => u,
                            Err(e) => {
                                return Err(e);
                            },
                        };
                        match fetch(url.as_str()) {
                            Ok(body) => crate::registry::resolve_registry_body(body.as_str()),
                            Err(e) => Err(e),
                        }
                    };
                self.remote_version_cache.get_or_compute(compute)
            },
        }
    }

    /// Translates an install request into the external invocation: the
    /// experimental guard first, then the git / accelerated / standard
    /// dispatch of [`build_install_plan`] on this identifier's
    /// classification. Building the plan launches nothing.
    pub fn install_version_impl(
        &self,
        ctx: &InstallContext,
        experimental_enabled: bool,
        cargo_binstall: bool,
        binstall_available: bool,
        github_token: &Option<String>,
    ) -> (r: Result<InstallPlan, Error>)
        ensures
            !experimental_enabled ==> r == Err::<InstallPlan, Error>(
                Error::ExperimentalFeatureDisabled,
            ),
            experimental_enabled ==> match plan_model_of(
                classify_model(self.ba.name@),
                self.ba.name@,
                ctx.version@,
                ctx.install_root@,
                binstall_choice(cargo_binstall, binstall_available),
                github_token.deep_view(),
                ctx.env.deep_view(),
                ctx.paths.deep_view(),
            ) {
                Some(p) => r matches Ok(plan) && plan.model() == p,
                None => r matches Err(Error::InvalidVersionSpec(v)) && v@ == ctx.version@,
            },
    {
        let source = classify(self.ba.name.as_str());
        let enabled = self.is_binstall_enabled(cargo_binstall, binstall_available);
        build_install_plan(
            &source,
            self.ba.name.as_str(),
            ctx.version.as_str(),
            ctx.install_root.as_str(),
            experimental_enabled,
            enabled,
            github_token,
            &ctx.env,
            &ctx.paths,
        )
    }

    /// The canonical git locator of the identifier, where it names a git
    /// remote (an absolute URL, or a `user/repo` GitHub shorthand).
    pub fn git_url(&self) -> (r: Option<String>)
        ensures
            match r {
                Some(u) => classify_model(self.ba.name@) == SourceModel::GitRemote(u@),
                None => classify_model(self.ba.name@) == SourceModel::Registry,
            },
    {
        match classify(self.ba.name.as_str()) {
            SourceKind::GitRemote(u) => Some(u),
            SourceKind::Registry => None,
        }
    }
}

} // verus!
