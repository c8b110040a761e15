//! The package-manager side of the registry: the project configuration and
//! lock-file data model, and the two computations the surrounding tool needs
//! — bumping the configured packages to a release version, and parsing a
//! line of the build toolchain's checksum listing.
//!
//! Everything that talks to the outside world (reading and writing the
//! configuration and lock files, querying a deployed registry, storing
//! artifacts, driving a governance proposal) belongs to the surrounding
//! tool; it hands these functions plain values.

use vstd::prelude::*;
use vstd::string::StrSliceExecFns;
use vstd::string::StringExecFns;

verus! {

/// Command-line arguments of the surrounding tool.
#[derive(Debug, PartialEq, Eq)]
pub struct Cli {
    /// Location of the configuration file or its directory; absent means the
    /// current directory.
    pub config: Option<String>,
    pub command: Option<Commands>,
}

/// The surrounding tool's subcommands.
#[derive(Debug, PartialEq, Eq)]
pub enum Commands {
    /// Initialize a new configuration.
    Init,
    /// Resolve each configured dependency against a registry and write the
    /// lock file.
    Install,
    /// Move each dependency to its latest registered version.
    Upgrade,
    /// Bump, build, store and propose a release of each configured package.
    Release {
        chain_reg_id: String,
        cargo_path: String,
        store_key_name: String,
        prop_key_name: String,
        version: String,
    },
}

/// The project configuration the surrounding tool reads.
#[derive(Debug, PartialEq, Eq)]
pub struct CPMConfig {
    /// Chain whose registry resolves the dependencies.
    pub chain_id: String,
    /// Packages to release, if this project releases any.
    pub release: Option<Release>,
    /// Dependencies to resolve into the lock file.
    pub dependencies: Vec<DependencyEntry>,
}

/// One configured dependency: which registry to ask, for which chain, for
/// which contract.
#[derive(Debug, PartialEq, Eq)]
pub struct DependencyEntry {
    pub registry_addr: String,
    pub chain_id: String,
    pub contract_name: String,
    pub dependency: Dependency,
}

/// A dependency constraint: a version, or the latest one when absent.
#[derive(Debug, PartialEq, Eq)]
pub struct Dependency {
    pub version: Option<String>,
}

/// The release section of the configuration.
#[derive(Debug, PartialEq, Eq)]
pub struct Release {
    /// Admin of the registry instance; release proposals are addressed to it.
    pub dao_addr: String,
    pub packages: Vec<Package>,
}

/// One package to release.
#[derive(Debug, PartialEq, Eq)]
pub struct Package {
    pub name: String,
    pub version: String,
    pub description: String,
    pub authors: Vec<String>,
    pub keywords: Vec<String>,
    pub website: String,
}

/// The lock file the install command writes.
#[derive(Debug, PartialEq, Eq)]
pub struct LockFile {
    pub dependencies: Vec<LockDep>,
}

/// One resolved dependency in the lock file.
#[derive(Debug, PartialEq, Eq)]
pub struct LockDep {
    pub name: String,
    pub chain_id: String,
    pub registered_by: String,
    pub version: String,
    pub code_id: u64,
    pub checksum: String,
}

// ---------------------------------------------------------------------------
// Release-version bump.
// ---------------------------------------------------------------------------

/// Copies a vector of strings.
fn clone_string_vec(v: &Vec<String>) -> (r: Vec<String>)
    ensures
        r@ == v@,
{
    let mut r: Vec<String> = Vec::new();
    let mut i: usize = 0;
    while i < v.len()
        invariant
            0 <= i <= v@.len(),
            r@ == v@.subrange(0, i as int),
        decreases v@.len() - i,
    {
        r.push(v[i].clone());
        proof {
            assert(v@.subrange(0, i as int + 1) =~= v@.subrange(0, i as int).push(v@[i as int]));
        }
        i = i + 1;
    }
    proof {
        assert(v@.subrange(0, v@.len() as int) =~= v@);
    }
    r
}

/// Sets every configured package's version to `version`, leaving everything
/// else in the configuration unchanged.
pub fn set_release_version(cfg: &mut CPMConfig, version: &str)
    requires
        old(cfg).release is Some,
    ensures
        final(cfg).chain_id == old(cfg).chain_id,
        final(cfg).dependencies == old(cfg).dependencies,
        ({
            &&& old(cfg).release matches Some(rel0)
            &&& final(cfg).release matches Some(rel)
            &&& rel.dao_addr == rel0.dao_addr
            &&& rel.packages@.len() == rel0.packages@.len()
            &&& forall|k: int|
                0 <= k < rel.packages@.len() ==> {
                    let p = #[trigger] rel.packages@[k];
                    let p0 = rel0.packages@[k];
                    &&& p.name@ == p0.name@
                    &&& p.version@ == version@
                    &&& p.description@ == p0.description@
                    &&& p.authors@ == p0.authors@
                    &&& p.keywords@ == p0.keywords@
                    &&& p.website@ == p0.website@
                }
        }),
{
    let rel_opt = cfg.release.take();
    match rel_opt {
        Some(rel) => {
            let Release { dao_addr, packages } = rel;
            let mut new_packages: Vec<Package> = Vec::new();
            let mut i: usize = 0;
            while i < packages.len()
                invariant
                    0 <= i <= packages@.len(),
                    new_packages@.len() == i,
                    forall|k: int|
                        0 <= k < i ==> {
                            let p = #[trigger] new_packages@[k];
                            let p0 = packages@[k];
                            &&& p.name@ == p0.name@
                            &&& p.version@ == version@
                            &&& p.description@ == p0.description@
                            &&& p.authors@ == p0.authors@
                            &&& p.keywords@ == p0.keywords@
                            &&& p.website@ == p0.website@
                        },
                decreases packages@.len() - i,
            {
                let p = &packages[i];
                new_packages.push(
                    Package {
                        name: p.name.clone(),
                        version: String::from_str(version),
                        description: p.description.clone(),
                        authors: clone_string_vec(&p.authors),
                        keywords: clone_string_vec(&p.keywords),
                        website: p.website.clone(),
                    },
                );
                i = i + 1;
            }
            cfg.release = Some(Release { dao_addr, packages: new_packages });
        },
        None => {},
    }
}

// ---------------------------------------------------------------------------
// Checksum-listing lines.
// ---------------------------------------------------------------------------
//
// The build toolchain writes one line per artifact: the checksum, two
// spaces, and the artifact file name. The artifact name is the contract
// name followed by `-<arch>.wasm` (when built for a specific machine
// architecture) or plain `.wasm`.

/// Positions `i` and `i + 1` of `s` hold the two-space separator.
pub open spec fn is_sep_at(s: Seq<char>, i: int) -> bool {
    0 <= i && i + 2 <= s.len() && s[i] == ' ' && s[i + 1] == ' '
}

/// `i` is the first separator position at or after `from`.
pub open spec fn is_first_sep_from(s: Seq<char>, from: int, i: int) -> bool {
    from <= i && is_sep_at(s, i) && forall|k: int| from <= k < i ==> !is_sep_at(s, k)
}

/// `j` ends the segment that starts at `from`: the next separator position,
/// or the end of the line when no further separator occurs.
pub open spec fn segment_end_ok(s: Seq<char>, from: int, j: int) -> bool {
    is_first_sep_from(s, from, j) || (j == s.len() && forall|k: int|
        from <= k < s.len() ==> !is_sep_at(s, k))
}

/// `s` ends with `suffix`.
pub open spec fn ends_with(s: Seq<char>, suffix: Seq<char>) -> bool {
    s.len() >= suffix.len() && s.subrange(s.len() - suffix.len(), s.len() as int) == suffix
}

/// The artifact file extension.
pub open spec fn wasm_ext() -> Seq<char> {
    seq!['.', 'w', 'a', 's', 'm']
}

/// `t` ends with `-<arch>.wasm`.
pub open spec fn has_arch_suffix(t: Seq<char>, arch: Seq<char>) -> bool {
    &&& t.len() >= arch.len() + 6
    &&& t[t.len() - arch.len() - 6] == '-'
    &&& t.subrange(t.len() - arch.len() - 5, t.len() - 5) == arch
    &&& t.subrange(t.len() - 5, t.len() as int) == wasm_ext()
}

/// The contract name of an artifact file name: the name with its
/// `-<arch>.wasm` suffix removed, or else its `.wasm` suffix, or the name
/// unchanged when it carries neither.
pub open spec fn strip_artifact_suffix(t: Seq<char>, arch: Seq<char>) -> Seq<char> {
    if has_arch_suffix(t, arch) {
        t.subrange(0, t.len() - arch.len() - 6)
    } else if ends_with(t, wasm_ext()) {
        t.subrange(0, t.len() - 5)
    } else {
        t
    }
}

/// Decides whether `t` ends with the artifact extension.
fn has_wasm_ext(t: &str) -> (r: bool)
    ensures
        r == ends_with(t@, wasm_ext()),
{
    let tl = t.unicode_len();
    if tl < 5 {
        return false;
    }
    let r = t.get_char(tl - 5) == '.' && t.get_char(tl - 4) == 'w' && t.get_char(tl - 3) == 'a'
        && t.get_char(tl - 2) == 's' && t.get_char(tl - 1) == 'm';
    proof {
        let s = t@.subrange(tl as int - 5, tl as int);
        if r {
            assert(s =~= wasm_ext());
        } else {
            if ends_with(t@, wasm_ext()) {
                assert(s[0] == '.' && s[1] == 'w' && s[2] == 'a' && s[3] == 's' && s[4] == 'm');
                assert(false);
            }
        }
    }
    r
}

/// Decides whether `t` ends with `-<arch>.wasm`.
fn has_arch_suffix_exec(t: &str, arch: &str) -> (r: bool)
    ensures
        r == has_arch_suffix(t@, arch@),
{
    let tl = t.unicode_len();
    let al = arch.unicode_len();
    if tl < al || tl - al < 6 {
        return false;
    }
    if !(t.get_char(tl - al - 6) == '-') {
        return false;
    }
    let mut k: usize = 0;
    while k < al
        invariant
            0 <= k <= al,
            al == arch@.len(),
            tl == t@.len(),
            tl >= al + 6,
            forall|m: int| 0 <= m < k ==> t@[tl - al - 5 + m] == arch@[m],
        decreases al - k,
    {
        if !(t.get_char(tl - al - 5 + k) == arch.get_char(k)) {
            proof {
                if has_arch_suffix(t@, arch@) {
                    let mid = t@.subrange(tl as int - al as int - 5, tl as int - 5);
                    assert(mid[k as int] == arch@[k as int]);
                    assert(false);
                }
            }
            return false;
        }
        k = k + 1;
    }
    proof {
        assert(t@.subrange(tl as int - al as int - 5, tl as int - 5) =~= arch@);
    }
    has_wasm_ext(t)
}

/// Removes the artifact suffix of [`strip_artifact_suffix`] from a file
/// name.
fn strip_artifact_suffix_exec(t: &str, arch: &str) -> (r: String)
    ensures
        r@ == strip_artifact_suffix(t@, arch@),
{
    let tl = t.unicode_len();
    let al = arch.unicode_len();
    if has_arch_suffix_exec(t, arch) {
        t.substring_char(0, tl - al - 6).to_owned()
    } else if has_wasm_ext(t) {
        t.substring_char(0, tl - 5).to_owned()
    } else {
        t.to_owned()
    }
}

/// Finds the first two-space separator at or after `from`.
fn find_sep_from(line: &str, from: usize) -> (r: Option<usize>)
    requires
        from <= line@.len(),
    ensures
        r matches Some(i) ==> is_first_sep_from(line@, from as int, i as int),
        r is None ==> forall|k: int| from <= k < line@.len() ==> !is_sep_at(line@, k),
{
    let len = line.unicode_len();
    let mut k: usize = from;
    while len - k > 1
        invariant
            from <= k <= len,
            len == line@.len(),
            forall|m: int| from <= m < k ==> !is_sep_at(line@, m),
        decreases len - k,
    {
        if line.get_char(k) == ' ' && line.get_char(k + 1) == ' ' {
            assert(is_sep_at(line@, k as int));
            return Some(k);
        }
        assert(!is_sep_at(line@, k as int));
        k = k + 1;
    }
    assert forall|m: int| from <= m < line@.len() implies !is_sep_at(line@, m) by {
        if m < k {
        } else {
            assert(m + 2 > line@.len());
        }
    }
    None
}

/// Splits one line of the checksum listing into the checksum and the
/// contract name: the checksum is everything before the first two-space
/// separator, and the contract name is the following segment with its
/// artifact suffix removed. A line without a separator carries no artifact
/// and yields nothing.
pub fn parse_checksum_line(line: &str, arch: &str) -> (r: Option<(String, String)>)
    ensures
        r is Some <==> exists|i: int| #[trigger] is_sep_at(line@, i),
        r matches Some(pair) ==> exists|i: int, j: int|
            #![trigger is_first_sep_from(line@, 0, i), segment_end_ok(line@, i + 2, j)]
            is_first_sep_from(line@, 0, i) && segment_end_ok(line@, i + 2, j) && pair.0@
                == line@.subrange(0, i) && pair.1@ == strip_artifact_suffix(
                line@.subrange(i + 2, j),
                arch@,
            ),
{
    let len = line.unicode_len();
    let i = match find_sep_from(line, 0) {
        Some(i) => i,
        None => {
            return None;
        },
    };
    let j = match find_sep_from(line, i + 2) {
        Some(j) => j,
        None => len,
    };
    let sha = line.substring_char(0, i).to_owned();
    let raw = line.substring_char(i + 2, j);
    let contract = strip_artifact_suffix_exec(raw, arch);
    proof {
        assert(is_sep_at(line@, i as int));
        assert(is_first_sep_from(line@, 0, i as int));
        assert(segment_end_ok(line@, i as int + 2, j as int));
    }
    Some((sha, contract))
}

} // verus!
