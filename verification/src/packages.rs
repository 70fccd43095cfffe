//! The package set resolver.
//!
//! Merges the base package names with the user's additional names into one
//! deduplicated list, and renders it as a single build-argument string:
//! each name prefixed with the `nixpkgs#` namespace token, joined by single
//! spaces. An empty union renders to the empty string.

use vstd::prelude::*;
use vstd::string::StringExecFns;

verus! {

/// Default name of the docker-compatible command-line tool.
pub fn default_docker_name() -> (r: String)
    ensures
        r@ == "podman"@,
{
    String::from_str("podman")
}

/// Default pinned image that carries the package-manager toolchain.
pub fn default_nix_image() -> (r: String)
    ensures
        r@ == "docker.io/nixos/nix:latest"@,
{
    String::from_str("docker.io/nixos/nix:latest")
}

/// The default base package names, as a sequence of character sequences.
pub open spec fn default_base_names() -> Seq<Seq<char>> {
    seq![
        "bash"@,
        "bash-completion"@,
        "bc"@,
        "curl"@,
        "diffutils"@,
        "findutils"@,
        "glibc"@,
        "gnupg"@,
        "iputils"@,
        "inetutils"@,
        "keyutils"@,
        "less"@,
        "lsof"@,
        "man"@,
        "mlocate"@,
        "mtr"@,
        "ncurses"@,
        "nssmdns"@,
        "openssh"@,
        "pigz"@,
        "pinentry-tty"@,
        "procps"@,
        "rsync"@,
        "shadow"@,
        "sudo"@,
        "tcpdump"@,
        "time"@,
        "traceroute"@,
        "tree"@,
        "tzdata"@,
        "unzip"@,
        "util-linux"@,
        "wget"@,
        "zip"@,
    ]
}

/// The default base packages to install into the environment: common
/// interactive-shell utilities.
pub fn default_base_packages() -> (r: Vec<String>)
    ensures
        r.deep_view() == default_base_names(),
{
    let mut v: Vec<String> = Vec::new();
    v.push(String::from_str("bash"));
    v.push(String::from_str("bash-completion"));
    v.push(String::from_str("bc"));
    v.push(String::from_str("curl"));
    v.push(String::from_str("diffutils"));
    v.push(String::from_str("findutils"));
    v.push(String::from_str("glibc"));
    v.push(String::from_str("gnupg"));
    v.push(String::from_str("iputils"));
    v.push(String::from_str("inetutils"));
    v.push(String::from_str("keyutils"));
    v.push(String::from_str("less"));
    v.push(String::from_str("lsof"));
    v.push(String::from_str("man"));
    v.push(String::from_str("mlocate"));
    v.push(String::from_str("mtr"));
    v.push(String::from_str("ncurses"));
    v.push(String::from_str("nssmdns"));
    v.push(String::from_str("openssh"));
    v.push(String::from_str("pigz"));
    v.push(String::from_str("pinentry-tty"));
    v.push(String::from_str("procps"));
    v.push(String::from_str("rsync"));
    v.push(String::from_str("shadow"));
    v.push(String::from_str("sudo"));
    v.push(String::from_str("tcpdump"));
    v.push(String::from_str("time"));
    v.push(String::from_str("traceroute"));
    v.push(String::from_str("tree"));
    v.push(String::from_str("tzdata"));
    v.push(String::from_str("unzip"));
    v.push(String::from_str("util-linux"));
    v.push(String::from_str("wget"));
    v.push(String::from_str("zip"));
    proof {
        assert(v.deep_view() =~= default_base_names());
    }
    v
}

/// The namespaced build token for one package name.
pub open spec fn token_of(name: Seq<char>) -> Seq<char> {
    "nixpkgs#"@ + name
}

/// The rendered build-argument string for a sequence of package names:
/// one namespaced token per name, joined with single spaces. Empty input
/// renders to the empty string.
pub open spec fn render_spec(names: Seq<Seq<char>>) -> Seq<char>
    decreases names.len(),
{
    if names.len() == 0 {
        Seq::empty()
    } else if names.len() == 1 {
        token_of(names[0])
    } else {
        render_spec(names.drop_last()) + " "@ + token_of(names.last())
    }
}

/// Collapses duplicates, keeping the first occurrence of each name.
pub open spec fn dedup_spec(names: Seq<Seq<char>>) -> Seq<Seq<char>>
    decreases names.len(),
{
    if names.len() == 0 {
        Seq::empty()
    } else {
        let prev = dedup_spec(names.drop_last());
        if prev.contains(names.last()) {
            prev
        } else {
            prev.push(names.last())
        }
    }
}

/// No name occurs twice in the sequence.
pub open spec fn no_dups(names: Seq<Seq<char>>) -> bool {
    forall|i: int, j: int| 0 <= i < j < names.len() ==> names[i] != names[j]
}

/// The string that resolving a base and an additional name sequence yields.
pub open spec fn resolved_spec(base: Seq<Seq<char>>, additional: Seq<Seq<char>>) -> Seq<char> {
    render_spec(dedup_spec(base + additional))
}

/// Whether a list of names holds one whose characters are `name`.
fn contains_name(v: &Vec<String>, name: &String) -> (r: bool)
    ensures
        r == v.deep_view().contains(name@),
{
    let mut i: usize = 0;
    while i < v.len()
        invariant
            i <= v.len(),
            forall|j: int| 0 <= j < i ==> v.deep_view()[j] != name@,
        decreases v.len() - i,
    {
        if v[i].eq(name) {
            assert(v.deep_view()[i as int] == name@);
            return true;
        }
        i += 1;
    }
    assert(forall|j: int| 0 <= j < v.deep_view().len() ==> v.deep_view()[j] != name@);
    false
}

/// The deduplicated union of the base names and the additional names,
/// first occurrences first.
pub fn merged_names(base: &Vec<String>, additional: &Vec<String>) -> (r: Vec<String>)
    ensures
        r.deep_view() == dedup_spec(base.deep_view() + additional.deep_view()),
{
    let ghost b: Seq<Seq<char>> = base.deep_view();
    let ghost a: Seq<Seq<char>> = additional.deep_view();
    let mut out: Vec<String> = Vec::new();
    let mut i: usize = 0;
    proof {
        assert(b.take(0) =~= Seq::<Seq<char>>::empty());
        assert(out.deep_view() =~= dedup_spec(b.take(0)));
    }
    while i < base.len()
        invariant
            i <= base.len(),
            b == base.deep_view(),
            out.deep_view() == dedup_spec(b.take(i as int)),
        decreases base.len() - i,
    {
        let name = &base[i];
        proof {
            assert(b.take(i + 1).drop_last() =~= b.take(i as int));
            assert(b.take(i + 1).last() == name@);
        }
        if !contains_name(&out, name) {
            out.push(name.clone());
        }
        proof {
            assert(out.deep_view() =~= dedup_spec(b.take(i + 1)));
        }
        i += 1;
    }
    proof {
        assert(b.take(base.deep_view().len() as int) =~= b);
        assert((b + a).take(b.len() as int) =~= b);
    }
    let mut k: usize = 0;
    while k < additional.len()
        invariant
            k <= additional.len(),
            b == base.deep_view(),
            a == additional.deep_view(),
            out.deep_view() == dedup_spec((b + a).take(b.len() + k)),
        decreases additional.len() - k,
    {
        let name = &additional[k];
        proof {
            assert((b + a).take(b.len() + k + 1).drop_last() =~= (b + a).take(b.len() + k));
            assert((b + a).take(b.len() + k + 1).last() == name@);
        }
        if !contains_name(&out, name) {
            out.push(name.clone());
        }
        proof {
            assert(out.deep_view() =~= dedup_spec((b + a).take(b.len() + k + 1)));
        }
        k += 1;
    }
    proof {
        assert((b + a).take((b.len() + a.len()) as int) =~= b + a);
    }
    out
}

/// Renders a list of names as the space-joined namespaced token string.
pub fn render_packages(names: &Vec<String>) -> (r: String)
    ensures
        r@ == render_spec(names.deep_view()),
{
    let ghost n: Seq<Seq<char>> = names.deep_view();
    let mut out = String::new();
    let mut i: usize = 0;
    while i < names.len()
        invariant
            i <= names.len(),
            n == names.deep_view(),
            out@ == render_spec(n.take(i as int)),
        decreases names.len() - i,
    {
        if i > 0 {
            out.append(" ");
        }
        out.append("nixpkgs#");
        out.append(names[i].as_str());
        proof {
            assert(n.take(i + 1).drop_last() =~= n.take(i as int));
            assert(n.take(i + 1).last() == n[i as int]);
            assert(out@ =~= render_spec(n.take(i + 1)));
        }
        i += 1;
    }
    proof {
        assert(n.take(names.deep_view().len() as int) =~= n);
    }
    out
}

/// The values that configure the pipeline: the docker-compatible tool to
/// invoke, the pinned package-manager image, and the package set.
pub struct Config {
    /// The name of the docker-compatible command-line tool to use.
    pub docker_name: String,
    /// Image that carries the package-manager toolchain for the layered build.
    pub nix_image: String,
    /// The base packages to install into the environment.
    pub base_packages: Vec<String>,
    /// Additional, user-specified packages to install.
    pub additional_packages: Vec<String>,
}

impl Config {
    /// Resolves the package set: the deduplicated union of base and
    /// additional names, each prefixed with the namespace token, joined
    /// with single spaces. An empty union yields the empty string.
    pub fn all_packages(&self) -> (r: String)
        ensures
            r@ == resolved_spec(self.base_packages.deep_view(), self.additional_packages.deep_view()),
    {
        let names = merged_names(&self.base_packages, &self.additional_packages);
        render_packages(&names)
    }
}

impl Default for Config {
    /// The configuration used when no configuration file exists.
    fn default() -> (r: Self)
        ensures
            r.docker_name@ == "podman"@,
            r.nix_image@ == "docker.io/nixos/nix:latest"@,
            r.base_packages.deep_view() == default_base_names(),
            r.additional_packages@.len() == 0,
    {
        Config {
            docker_name: default_docker_name(),
            nix_image: default_nix_image(),
            base_packages: default_base_packages(),
            additional_packages: Vec::new(),
        }
    }
}

/// Deduplication keeps exactly the set of names: membership is unchanged.
proof fn lemma_dedup_contains(s: Seq<Seq<char>>, x: Seq<char>)
    ensures
        dedup_spec(s).contains(x) <==> s.contains(x),
    decreases s.len(),
{
    if s.len() > 0 {
        lemma_dedup_contains(s.drop_last(), x);
        let prev = dedup_spec(s.drop_last());
        let d = dedup_spec(s);
        if s.contains(x) {
            let i = choose|i: int| 0 <= i < s.len() && s[i] == x;
            if i < s.len() - 1 {
                assert(s.drop_last()[i] == x);
                assert(s.drop_last().contains(x));
                let j = choose|j: int| 0 <= j < prev.len() && prev[j] == x;
                if prev.contains(s.last()) {
                    assert(d[j] == x);
                } else {
                    assert(prev.push(s.last())[j] == x);
                }
            } else {
                assert(x == s.last());
                if prev.contains(x) {
                    let j = choose|j: int| 0 <= j < prev.len() && prev[j] == x;
                    assert(d[j] == x);
                } else {
                    assert(prev.push(x)[prev.len() as int] == x);
                }
            }
        }
        if d.contains(x) {
            let j = choose|j: int| 0 <= j < d.len() && d[j] == x;
            if j < prev.len() {
                assert(prev[j] == x);
                assert(prev.contains(x));
                let i = choose|i: int| 0 <= i < s.drop_last().len() && s.drop_last()[i] == x;
                assert(s[i] == x);
            } else {
                assert(x == s.last());
                assert(s[s.len() - 1] == x);
            }
        }
    }
}

/// Deduplication leaves no duplicates.
proof fn lemma_dedup_no_dups(s: Seq<Seq<char>>)
    ensures
        no_dups(dedup_spec(s)),
    decreases s.len(),
{
    if s.len() > 0 {
        lemma_dedup_no_dups(s.drop_last());
        let prev = dedup_spec(s.drop_last());
        if !prev.contains(s.last()) {
            let d = prev.push(s.last());
            assert forall|i: int, j: int| 0 <= i < j < d.len() implies d[i] != d[j] by {
                if j < prev.len() {
                    assert(prev[i] == d[i] && prev[j] == d[j]);
                } else {
                    assert(d[j] == s.last());
                    assert(prev[i] == d[i]);
                    if d[i] == s.last() {
                        assert(prev.contains(s.last()));
                    }
                }
            }
        }
    }
}

/// Law: resolving takes exactly one name per element of the set union of
/// the base and additional names — membership in the deduplicated union is
/// membership in either input, and no name occurs twice, even when the two
/// inputs overlap.
pub proof fn lemma_package_union(base: Seq<Seq<char>>, additional: Seq<Seq<char>>)
    ensures
        dedup_spec(base + additional).to_set() =~= base.to_set().union(additional.to_set()),
        no_dups(dedup_spec(base + additional)),
{
    let s = base + additional;
    lemma_dedup_no_dups(s);
    assert forall|x: Seq<char>| dedup_spec(s).contains(x) implies base.contains(x)
        || additional.contains(x) by {
        lemma_dedup_contains(s, x);
        let i = choose|i: int| 0 <= i < s.len() && s[i] == x;
        if i < base.len() {
            assert(base[i] == x);
        } else {
            assert(additional[i - base.len()] == x);
        }
    }
    assert forall|x: Seq<char>| base.contains(x) || additional.contains(x) implies dedup_spec(
        s,
    ).contains(x) by {
        if base.contains(x) {
            let i = choose|i: int| 0 <= i < base.len() && base[i] == x;
            assert(s[i] == x);
        } else {
            let i = choose|i: int| 0 <= i < additional.len() && additional[i] == x;
            assert(s[base.len() + i] == x);
        }
        lemma_dedup_contains(s, x);
    }
}

/// Law: resolving an empty union yields the empty string.
pub proof fn lemma_empty_packages(base: Seq<Seq<char>>, additional: Seq<Seq<char>>)
    requires
        base.len() == 0,
        additional.len() == 0,
    ensures
        resolved_spec(base, additional) == Seq::<char>::empty(),
{
    assert((base + additional).len() == 0);
}

} // verus!
