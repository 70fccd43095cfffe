//! The three pipeline stages: image acquisition, the layered build, and the
//! interactive launch.
//!
//! Each stage's decision and command line is computed here; the caller
//! spawns the subprocesses and streams their output through
//! [`crate::capture`]. The layered build reads its recipe from standard
//! input; the recipe text is a compiled-in constant of this module.

use vstd::prelude::*;
use vstd::string::StringExecFns;

verus! {

/// Where the dev image comes from: a recipe file to build, or an existing
/// image reference to use as-is.
pub enum BuildTarget {
    /// Build the dev image from the build-recipe file at this path.
    FromRecipe(String),
    /// Use or pull this existing image reference unchanged.
    FromReference(String),
}

/// The acquisition decision for one target.
pub enum AcquireStep {
    /// The dev-image reference is already at hand: no subprocess runs.
    Done(String),
    /// A build of the recipe file at this path must run; its path must
    /// first be resolved to an absolute path, and the image reference is
    /// the last line the build writes.
    NeedBuild(String),
}

/// Decides how the dev image is acquired. An existing reference passes
/// through exactly as given, with no build asked for; a recipe target asks
/// for a build of the recipe file.
pub fn acquisition_step(target: BuildTarget) -> (r: AcquireStep)
    ensures
        target matches BuildTarget::FromReference(name) ==> r == AcquireStep::Done(name),
        target matches BuildTarget::FromRecipe(path) ==> r == AcquireStep::NeedBuild(path),
{
    match target {
        BuildTarget::FromReference(name) => AcquireStep::Done(name),
        BuildTarget::FromRecipe(path) => AcquireStep::NeedBuild(path),
    }
}

/// The arguments of the acquisition build: build the recipe file at the
/// given resolved path, standard output captured line by line.
pub fn acquire_build_args(recipe_path: &String) -> (r: Vec<String>)
    ensures
        r.deep_view() == seq!["build"@, "-f"@, recipe_path@],
{
    let mut v: Vec<String> = Vec::new();
    v.push(String::from_str("build"));
    v.push(String::from_str("-f"));
    v.push(recipe_path.clone());
    proof {
        assert(v.deep_view() =~= seq!["build"@, "-f"@, recipe_path@]);
    }
    v
}

/// The arguments of the layered build: the recipe comes on standard input
/// (`-f -`), and the three build-time parameters are bound by name.
pub fn layered_build_args(nix_image: &String, dev_image: &String, packages_string: &String) -> (r:
    Vec<String>)
    ensures
        r.deep_view() == seq![
            "build"@,
            "-f"@,
            "-"@,
            "--build-arg"@,
            "NIX_IMAGE="@ + nix_image@,
            "--build-arg"@,
            "DEV_IMAGE="@ + dev_image@,
            "--build-arg"@,
            "PACKAGES_STRING="@ + packages_string@,
        ],
{
    let mut v: Vec<String> = Vec::new();
    v.push(String::from_str("build"));
    v.push(String::from_str("-f"));
    v.push(String::from_str("-"));
    v.push(String::from_str("--build-arg"));
    v.push(String::from_str("NIX_IMAGE=").concat(nix_image.as_str()));
    v.push(String::from_str("--build-arg"));
    v.push(String::from_str("DEV_IMAGE=").concat(dev_image.as_str()));
    v.push(String::from_str("--build-arg"));
    v.push(String::from_str("PACKAGES_STRING=").concat(packages_string.as_str()));
    proof {
        assert(v.deep_view() =~= seq![
            "build"@,
            "-f"@,
            "-"@,
            "--build-arg"@,
            "NIX_IMAGE="@ + nix_image@,
            "--build-arg"@,
            "DEV_IMAGE="@ + dev_image@,
            "--build-arg"@,
            "PACKAGES_STRING="@ + packages_string@,
        ]);
    }
    v
}

/// The arguments of the interactive launch: run the built image with the
/// resolved workspace mounted read-write at `/workspace`, working directory
/// there, host identity and network kept, the fixed binary directory added
/// to `PATH`, a fixed container name, removal on exit, and an interactive
/// shell. The caller replaces its own process with this invocation, so on
/// success control never returns.
pub fn run_args(image: &String, workspace: &String) -> (r: Vec<String>)
    ensures
        r.deep_view() == seq![
            "run"@,
            "--rm"@,
            "--tty"@,
            "--interactive"@,
            "--volume"@,
            workspace@ + ":/workspace:rw"@,
            "--workdir"@,
            "/workspace"@,
            "--userns"@,
            "keep-id"@,
            "--name"@,
            "yadt-test-run"@,
            "--http-proxy"@,
            "--network"@,
            "host"@,
            "--env-merge"@,
            "PATH=${PATH}:/yadt-bin"@,
            image@,
            "/bin/bash"@,
        ],
{
    let mut v: Vec<String> = Vec::new();
    v.push(String::from_str("run"));
    v.push(String::from_str("--rm"));
    v.push(String::from_str("--tty"));
    v.push(String::from_str("--interactive"));
    v.push(String::from_str("--volume"));
    v.push(workspace.clone().concat(":/workspace:rw"));
    v.push(String::from_str("--workdir"));
    v.push(String::from_str("/workspace"));
    v.push(String::from_str("--userns"));
    v.push(String::from_str("keep-id"));
    v.push(String::from_str("--name"));
    v.push(String::from_str("yadt-test-run"));
    v.push(String::from_str("--http-proxy"));
    v.push(String::from_str("--network"));
    v.push(String::from_str("host"));
    v.push(String::from_str("--env-merge"));
    v.push(String::from_str("PATH=${PATH}:/yadt-bin"));
    v.push(image.clone());
    v.push(String::from_str("/bin/bash"));
    proof {
        assert(v.deep_view() =~= seq![
            "run"@,
            "--rm"@,
            "--tty"@,
            "--interactive"@,
            "--volume"@,
            workspace@ + ":/workspace:rw"@,
            "--workdir"@,
            "/workspace"@,
            "--userns"@,
            "keep-id"@,
            "--name"@,
            "yadt-test-run"@,
            "--http-proxy"@,
            "--network"@,
            "host"@,
            "--env-merge"@,
            "PATH=${PATH}:/yadt-bin"@,
            image@,
            "/bin/bash"@,
        ]);
    }
    v
}

/// The embedded build recipe of the layered build.
pub open spec fn recipe_spec() -> Seq<char> {
    "ARG NIX_IMAGE\nARG DEV_IMAGE\n\nFROM ${NIX_IMAGE} AS nix-stage\nARG PACKAGES_STRING\nRUN nix --extra-experimental-features 'nix-command flakes' profile install --profile /yadt/profile ${PACKAGES_STRING}\n\nFROM ${DEV_IMAGE}\nCOPY --from=nix-stage /nix /nix\nCOPY --from=nix-stage /yadt /yadt\nRUN mkdir -p /yadt-bin && ln -s /yadt/profile/bin/* /yadt-bin/\n"@
}

/// The embedded build recipe: a compiled-in, immutable constant. It builds
/// the requested package set with the package-manager image, then layers
/// the resulting store and profile onto the dev image.
pub fn recipe_text() -> (r: String)
    ensures
        r@ == recipe_spec(),
{
    String::from_str(
        "ARG NIX_IMAGE\nARG DEV_IMAGE\n\nFROM ${NIX_IMAGE} AS nix-stage\nARG PACKAGES_STRING\nRUN nix --extra-experimental-features 'nix-command flakes' profile install --profile /yadt/profile ${PACKAGES_STRING}\n\nFROM ${DEV_IMAGE}\nCOPY --from=nix-stage /nix /nix\nCOPY --from=nix-stage /yadt /yadt\nRUN mkdir -p /yadt-bin && ln -s /yadt/profile/bin/* /yadt-bin/\n",
    )
}

} // verus!
