use vstd::prelude::*;
use crate::command::{join, joined, CommandSpec, CommandView, EnvVar};

verus! {

/// The variable through which both stages receive their compiler flags.
pub const FLAGS_VAR: &'static str = "RUSTFLAGS";

pub const SYMBOL_MANGLING_FLAG: &'static str = "-Csymbol-mangling-version=v0";
pub const LOCATION_DETAIL_FLAG: &'static str = "-Zlocation-detail=none";
/// The one flag that only the frontend stage adds.
pub const FRONTEND_FEATURE_FLAG: &'static str = "-C target-feature=+bulk-memory";
pub const FMT_DEBUG_FLAG: &'static str = "-Zfmt-debug=none";
pub const LINKER_FLAG: &'static str = "-Clink-args=-fuse-ld=lld";
pub const ICF_FLAG: &'static str = "-Clink-args=-Wl,--icf=all";

pub const FRONTEND_TOOL: &'static str = "trunk";
pub const PACKAGING_TOOL: &'static str = "cargo";

/// Tuning flags shared by both stages, independent of the target.
pub open spec fn base_flags_of() -> Seq<Seq<char>> {
    seq![SYMBOL_MANGLING_FLAG@, LOCATION_DETAIL_FLAG@]
}

pub open spec fn frontend_extra_of() -> Seq<Seq<char>> {
    seq![FRONTEND_FEATURE_FLAG@]
}

/// Debug-formatting stripping and two linker directives.
pub open spec fn app_extra_of() -> Seq<Seq<char>> {
    seq![FMT_DEBUG_FLAG@, LINKER_FLAG@, ICF_FLAG@]
}

pub open spec fn frontend_flags_of() -> Seq<Seq<char>> {
    base_flags_of() + frontend_extra_of()
}

pub open spec fn app_flags_of() -> Seq<Seq<char>> {
    base_flags_of() + app_extra_of()
}

/// The overlay that hands `flags` to the compiler.
pub open spec fn flags_overlay_of(flags: Seq<Seq<char>>) -> Seq<(Seq<char>, Seq<char>)> {
    seq![(FLAGS_VAR@, joined(flags, " "@))]
}

pub open spec fn frontend_command_of(root: Seq<char>) -> CommandView {
    CommandView {
        program: FRONTEND_TOOL@,
        args: seq!["build"@, "--release"@],
        env: flags_overlay_of(frontend_flags_of()),
        cwd: root,
    }
}

pub open spec fn app_command_of(target: Seq<char>, root: Seq<char>) -> CommandView {
    CommandView {
        program: PACKAGING_TOOL@,
        args: seq!["+nightly"@, "tauri"@, "build"@, "--target"@, target],
        env: flags_overlay_of(app_flags_of()),
        cwd: root,
    }
}

fn owned(s: &str) -> (r: String)
    ensures
        r@ == s@,
{
    String::from_str(s)
}

pub fn base_flags() -> (r: Vec<String>)
    ensures
        r.deep_view() == base_flags_of(),
{
    let r = vec![owned(SYMBOL_MANGLING_FLAG), owned(LOCATION_DETAIL_FLAG)];
    assert(r.deep_view() =~= base_flags_of());
    r
}

pub fn frontend_extra() -> (r: Vec<String>)
    ensures
        r.deep_view() == frontend_extra_of(),
{
    let r = vec![owned(FRONTEND_FEATURE_FLAG)];
    assert(r.deep_view() =~= frontend_extra_of());
    r
}

pub fn app_extra() -> (r: Vec<String>)
    ensures
        r.deep_view() == app_extra_of(),
{
    let r = vec![owned(FMT_DEBUG_FLAG), owned(LINKER_FLAG), owned(ICF_FLAG)];
    assert(r.deep_view() =~= app_extra_of());
    r
}

/// The shared flags followed by a stage's own: nothing of `base` is lost.
pub fn compose(base: &Vec<String>, extra: &Vec<String>) -> (r: Vec<String>)
    ensures
        r.deep_view() == base.deep_view() + extra.deep_view(),
{
    let mut out: Vec<String> = Vec::new();
    let mut i: usize = 0;
    while i < base.len()
        invariant
            i <= base.len(),
            out@ =~= base@.take(i as int),
        decreases base.len() - i,
    {
        out.push(base[i].clone());
        i = i + 1;
    }
    let mut j: usize = 0;
    while j < extra.len()
        invariant
            i == base.len(),
            j <= extra.len(),
            out@ =~= base@ + extra@.take(j as int),
        decreases extra.len() - j,
    {
        out.push(extra[j].clone());
        j = j + 1;
    }
    assert(out@ =~= base@ + extra@);
    assert(out.deep_view() =~= base.deep_view() + extra.deep_view());
    out
}

pub fn flags_overlay(flags: &Vec<String>) -> (r: Vec<EnvVar>)
    ensures
        r@.map_values(|v: EnvVar| v@) == flags_overlay_of(flags.deep_view()),
{
    let r = vec![EnvVar { name: owned(FLAGS_VAR), value: join(flags, " ") }];
    assert(r@.map_values(|v: EnvVar| v@) =~= flags_overlay_of(flags.deep_view()));
    r
}

/// The frontend asset build: a release build in the project root, with the
/// shared flags and the frontend's feature flag.
pub fn frontend_command(root: &str) -> (r: CommandSpec)
    ensures
        r@ == frontend_command_of(root@),
{
    let flags = compose(&base_flags(), &frontend_extra());
    let args = vec![owned("build"), owned("--release")];
    let r = CommandSpec {
        program: owned(FRONTEND_TOOL),
        args,
        env: flags_overlay(&flags),
        cwd: owned(root),
    };
    assert(r.args.deep_view() =~= seq!["build"@, "--release"@]);
    r
}

/// The application packaging build for `target`, in the project root, with
/// the shared flags and the application's own.
pub fn app_command(target: &str, root: &str) -> (r: CommandSpec)
    ensures
        r@ == app_command_of(target@, root@),
{
    let flags = compose(&base_flags(), &app_extra());
    let args = vec![owned("+nightly"), owned("tauri"), owned("build"), owned("--target"), owned(target)];
    let r = CommandSpec {
        program: owned(PACKAGING_TOOL),
        args,
        env: flags_overlay(&flags),
        cwd: owned(root),
    };
    assert(r.args.deep_view() =~= seq!["+nightly"@, "tauri"@, "build"@, "--target"@, target@]);
    r
}

/// The application stage's flags hold every shared flag and its own three,
/// and not the frontend's feature flag.
pub proof fn law_overlays_additive()
    ensures
        forall|f: Seq<char>| base_flags_of().contains(f) ==> app_flags_of().contains(f),
        forall|f: Seq<char>| base_flags_of().contains(f) ==> frontend_flags_of().contains(f),
        forall|f: Seq<char>| app_extra_of().contains(f) ==> app_flags_of().contains(f),
        !app_flags_of().contains(FRONTEND_FEATURE_FLAG@),
        frontend_flags_of().contains(FRONTEND_FEATURE_FLAG@),
{
    reveal_strlit("-Csymbol-mangling-version=v0");
    reveal_strlit("-Zlocation-detail=none");
    reveal_strlit("-C target-feature=+bulk-memory");
    reveal_strlit("-Zfmt-debug=none");
    reveal_strlit("-Clink-args=-fuse-ld=lld");
    reveal_strlit("-Clink-args=-Wl,--icf=all");
    assert forall|f: Seq<char>| base_flags_of().contains(f) implies app_flags_of().contains(f) by {
        let k = choose|k: int| 0 <= k < base_flags_of().len() && base_flags_of()[k] == f;
        assert(app_flags_of()[k] == f);
    }
    assert forall|f: Seq<char>| base_flags_of().contains(f) implies frontend_flags_of().contains(f) by {
        let k = choose|k: int| 0 <= k < base_flags_of().len() && base_flags_of()[k] == f;
        assert(frontend_flags_of()[k] == f);
    }
    assert forall|f: Seq<char>| app_extra_of().contains(f) implies app_flags_of().contains(f) by {
        let k = choose|k: int| 0 <= k < app_extra_of().len() && app_extra_of()[k] == f;
        assert(app_flags_of()[k + 2] == f);
    }
    assert(frontend_flags_of()[2] == FRONTEND_FEATURE_FLAG@);
    assert forall|k: int| 0 <= k < app_flags_of().len() implies app_flags_of()[k] != FRONTEND_FEATURE_FLAG@ by {
        assert(app_flags_of()[k].len() != FRONTEND_FEATURE_FLAG@.len());
    }
}

} // verus!
