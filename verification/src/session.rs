use crate::config::{Encoding, LanguageFeatures, LintConfig, PackageType, Position, Profile};
use crate::diagnostics::{lemma_with_kind_concat, push_tagged, with_kind, Error, ErrorKind};
use crate::source_map::{
    contents_offset, lemma_offset_in_contents_bounds, offset_in_contents, total_len, SourceMap,
};
use crate::span::Span;
use crate::store::{CompileUnit, Item, ItemId, Package, PackageId, PackageStore, Res, Ty};
use vstd::pervasive::unreached;
use vstd::prelude::*;

verus! {

/// The editing model a session was built under.
#[derive(Clone, Copy, Debug, PartialEq, Eq, Structural)]
pub enum CompilationKind {
    /// An open project: the user package holds one or more whole-file
    /// sources compiled in one batch against a fixed target profile.
    OpenProject,
    /// A notebook: the user package holds an ordered sequence of cell
    /// fragments, each compiled incrementally against the accumulated state.
    Notebook,
}

/// What the external collaborators report for one batch compile: the two
/// library packages built for the chosen profile, the compiled user package
/// with its per-node annotations, and the findings of each pass.
///
/// The lint and capability findings are what the respective engines report
/// for this compiled package; whether they enter the diagnostics list is
/// decided here, by the gating rules of the session.
pub struct BatchOutput {
    pub core_unit: CompileUnit,
    pub std_unit: CompileUnit,
    pub user_package: Package,
    pub user_tys: Vec<Option<Ty>>,
    pub user_names: Vec<Option<Res>>,
    pub compile_errors: Vec<Span>,
    pub lint_findings: Vec<Span>,
    pub capability_findings: Vec<Span>,
}

/// What the incremental compiler reports for one notebook cell: the errors
/// found while compiling it, and the items its fragment adds to the user
/// package.
pub struct CellOutcome {
    pub errors: Vec<Span>,
    pub items: Vec<Item>,
}

/// What the external collaborators report for one notebook compile.
pub struct NotebookOutput {
    pub core_unit: CompileUnit,
    pub std_unit: CompileUnit,
    pub cell_outcomes: Vec<CellOutcome>,
    pub user_tys: Vec<Option<Ty>>,
    pub user_names: Vec<Option<Res>>,
    pub lint_findings: Vec<Span>,
    pub capability_findings: Vec<Span>,
}

/// Collaborator reports for whichever construction path a recompilation
/// takes.
pub enum FrontendOutput {
    OpenProject(BatchOutput),
    Notebook(NotebookOutput),
}

/// An immutable compilation snapshot that language-service features query:
/// the package store with the current package and all its dependencies, the
/// cached identifier of the user package, and the accumulated diagnostics.
#[derive(Debug)]
pub struct Compilation {
    /// Package store, containing the current package and all its
    /// dependencies.
    pub package_store: PackageStore,
    /// The identifier of the user package: all code except the core and
    /// standard libraries.
    pub user_package_id: PackageId,
    pub errors: Vec<Error>,
    pub kind: CompilationKind,
}

/// The diagnostics list after the gated lint step: lint findings are
/// appended only when the list is empty at the time of the check, so lint
/// analysis is skipped entirely while the user's code has unresolved
/// problems.
pub open spec fn lint_gate_step(errors: Seq<Error>, lints: Seq<Span>) -> Seq<Error> {
    if errors.len() == 0 {
        errors + with_kind(lints, ErrorKind::Lint)
    } else {
        errors
    }
}

/// The diagnostics list after the lowering/capability step: violations are
/// appended only when the list is empty (a package with errors cannot be
/// safely lowered) and the profile is one the pass actually checks.
pub open spec fn capability_step(errors: Seq<Error>, profile: Profile, findings: Seq<Span>) -> Seq<
    Error,
> {
    if errors.len() == 0 && profile.needs_capability_check() {
        errors + with_kind(findings, ErrorKind::Pass)
    } else {
        errors
    }
}

/// The full diagnostics list of a batch session: compile errors, then the
/// gated lint findings, then the gated capability violations, then a second,
/// unconditional lint run against the finalized unit.
pub open spec fn batch_errors(
    compile: Seq<Span>,
    lints: Seq<Span>,
    caps: Seq<Span>,
    profile: Profile,
) -> Seq<Error> {
    capability_step(
        lint_gate_step(with_kind(compile, ErrorKind::Compile), lints),
        profile,
        caps,
    ) + with_kind(lints, ErrorKind::Lint)
}

/// The errors of the first `i` cells, in cell order.
pub open spec fn cell_spans_upto(cells: Seq<CellOutcome>, i: int) -> Seq<Span>
    decreases i,
{
    if i <= 0 {
        Seq::empty()
    } else {
        cell_spans_upto(cells, i - 1) + cells[i - 1].errors@
    }
}

/// The items of the first `i` cells, in cell order.
pub open spec fn cell_items_upto(cells: Seq<CellOutcome>, i: int) -> Seq<Seq<u8>>
    decreases i,
{
    if i <= 0 {
        Seq::empty()
    } else {
        cell_items_upto(cells, i - 1) + item_views(cells[i - 1].items@)
    }
}

/// The items' abstract values, in order.
pub open spec fn item_views(items: Seq<Item>) -> Seq<Seq<u8>> {
    items.map_values(|item: Item| item@)
}

/// The full diagnostics list of a notebook session: every cell's errors in
/// cell order, then the gated lint findings, then the gated capability
/// violations.
pub open spec fn notebook_errors(
    cells: Seq<CellOutcome>,
    lints: Seq<Span>,
    caps: Seq<Span>,
    profile: Profile,
) -> Seq<Error> {
    capability_step(
        lint_gate_step(with_kind(cell_spans_upto(cells, cells.len() as int), ErrorKind::Compile), lints),
        profile,
        caps,
    )
}

/// The package a reference points into: its own explicit identifier when it
/// carries one, else the package the reference originated from.
pub open spec fn target_package(item_id: ItemId, local_package_id: PackageId) -> int {
    match item_id.package {
        Some(p) => p as int,
        None => local_package_id as int,
    }
}

/// A reference is valid when the package it points into exists in the store
/// and the item index exists in that package. A consistent store satisfies
/// this for every reference a live session can hold; a miss is an
/// internal-invariant violation of the host, not a user-facing condition.
pub open spec fn valid_item_ref(store: PackageStore, local_package_id: PackageId, item_id: ItemId) -> bool {
    &&& 0 <= target_package(item_id, local_package_id) < store.units@.len()
    &&& item_id.item < store.units@[target_package(item_id, local_package_id)].package.items@.len()
}

/// Appends lint findings only when the diagnostics list is empty at the time
/// of the check.
pub fn append_lints_when_clean(errors: &mut Vec<Error>, lint_findings: &Vec<Span>)
    ensures
        final(errors)@ == lint_gate_step(old(errors)@, lint_findings@),
{
    if errors.len() == 0 {
        push_tagged(errors, lint_findings, ErrorKind::Lint);
    }
}

/// The lowering/capability step. Runs only when there are no diagnostics yet
/// (a package with errors cannot be safely lowered) and the target profile
/// is neither `Base` (validated by a separate earlier-stage checker) nor
/// `Unrestricted` (nothing to check); when it runs, the capability
/// violations reported by the external pass are appended, and nothing else
/// changes.
pub fn run_fir_passes(errors: &mut Vec<Error>, target_profile: Profile, capability_findings: &Vec<Span>)
    ensures
        final(errors)@ == capability_step(old(errors)@, target_profile, capability_findings@),
{
    if errors.len() > 0 {
        return ;
    }
    if target_profile == Profile::Base {
        return ;
    }
    if target_profile == Profile::Unrestricted {
        return ;
    }
    push_tagged(errors, capability_findings, ErrorKind::Pass);
}

/// Appends a copy of every item of `src` to `dst`, preserving order.
pub fn append_items(dst: &mut Vec<Item>, src: &Vec<Item>)
    ensures
        item_views(final(dst)@) == item_views(old(dst)@) + item_views(src@),
{
    let mut i: usize = 0;
    while i < src.len()
        invariant
            i <= src.len(),
            item_views(dst@) == item_views(old(dst)@) + item_views(src@.subrange(0, i as int)),
        decreases src.len() - i,
    {
        let duplicate = src[i].duplicate();
        let ghost pre = dst@;
        dst.push(duplicate);
        proof {
            assert(item_views(pre.push(duplicate)) =~= item_views(pre).push(duplicate@));
            assert(item_views(src@.subrange(0, i + 1)) =~= item_views(
                src@.subrange(0, i as int),
            ).push(src@[i as int]@));
            assert(item_views(dst@) =~= item_views(old(dst)@) + item_views(
                src@.subrange(0, i + 1),
            ));
        }
        i = i + 1;
    }
    proof {
        assert(src@.subrange(0, src@.len() as int) =~= src@);
        assert(item_views(final(dst)@) =~= item_views(old(dst)@) + item_views(src@));
    }
}

impl Compilation {
    /// The compile unit the session holds at `user_package_id`.
    pub open spec fn user_unit_spec(self) -> CompileUnit {
        self.package_store.units@[self.user_package_id as int]
    }

    /// Session well-formedness: the store holds exactly the core library,
    /// the standard library and the user package, in that order; the cached
    /// user-package identifier addresses the user package; and the user
    /// package's sources occupy a well-formed slice of the address space.
    pub open spec fn wf(self) -> bool {
        &&& self.package_store.units@.len() == 3
        &&& self.user_package_id == 2
        &&& self.user_unit_spec().sources.wf()
    }

    /// Creates a new `Compilation` from whole-file sources (batch mode).
    ///
    /// The package type, profile, feature flags and lint configuration are
    /// the configuration under which the external front end compiled the
    /// sources; its reports arrive in `front`. The session seeds the store
    /// with the core library, inserts the standard library, collects the
    /// compile errors, runs the gated lint step, inserts the compiled user
    /// package, runs the gated capability step, and finally appends a second
    /// lint run against the finalized unit.
    #[allow(unused_variables)]
    pub fn new(
        sources: &Vec<(Vec<u8>, Vec<u8>)>,
        package_type: PackageType,
        target_profile: Profile,
        language_features: LanguageFeatures,
        lints_config: &Vec<LintConfig>,
        front: BatchOutput,
    ) -> (r: Compilation)
        requires
            total_len(sources@) <= u32::MAX,
        ensures
            r.wf(),
            r.kind == CompilationKind::OpenProject,
            r.errors@ == batch_errors(
                front.compile_errors@,
                front.lint_findings@,
                front.capability_findings@,
                target_profile,
            ),
            r.package_store.units@[0] == front.core_unit,
            r.package_store.units@[1] == front.std_unit,
            r.user_unit_spec().package == front.user_package,
            r.user_unit_spec().tys == front.user_tys,
            r.user_unit_spec().names == front.user_names,
            r.user_unit_spec().sources.sources@.len() == sources@.len(),
            forall|j: int|
                0 <= j < sources@.len() ==> (#[trigger] r.user_unit_spec().sources.sources@[j]).name@
                    == sources@[j].0@ && r.user_unit_spec().sources.sources@[j].contents@
                    == sources@[j].1@,
    {
        let BatchOutput {
            core_unit,
            std_unit,
            user_package,
            user_tys,
            user_names,
            compile_errors,
            lint_findings,
            capability_findings,
        } = front;
        let source_map = SourceMap::new(sources);
        let mut package_store = PackageStore::new(core_unit);
        let std_package_id = package_store.insert(std_unit);
        let mut errors: Vec<Error> = Vec::new();
        push_tagged(&mut errors, &compile_errors, ErrorKind::Compile);
        proof {
            assert(errors@ =~= with_kind(compile_errors@, ErrorKind::Compile));
        }
        append_lints_when_clean(&mut errors, &lint_findings);
        let unit = CompileUnit {
            package: user_package,
            tys: user_tys,
            names: user_names,
            sources: source_map,
        };
        let package_id = package_store.insert(unit);
        run_fir_passes(&mut errors, target_profile, &capability_findings);
        push_tagged(&mut errors, &lint_findings, ErrorKind::Lint);
        Compilation {
            package_store,
            user_package_id: package_id,
            errors,
            kind: CompilationKind::OpenProject,
        }
    }

    /// Creates a new `Compilation` from notebook cells (incremental mode).
    ///
    /// Cells are folded in order; a cell that fails to compile never aborts
    /// the sequence — its errors join the running list and every later cell
    /// is still processed, so a notebook with an error in one cell keeps
    /// compiled results for all the others. Lint and capability steps then
    /// run exactly as in batch mode, except that no second lint run follows
    /// the capability step.
    #[allow(unused_variables)]
    pub fn new_notebook(
        cells: &Vec<(Vec<u8>, Vec<u8>)>,
        target_profile: Profile,
        language_features: LanguageFeatures,
        lints_config: &Vec<LintConfig>,
        front: NotebookOutput,
    ) -> (r: Compilation)
        requires
            front.cell_outcomes@.len() == cells@.len(),
            total_len(cells@) <= u32::MAX,
        ensures
            r.wf(),
            r.kind == CompilationKind::Notebook,
            r.errors@ == notebook_errors(
                front.cell_outcomes@,
                front.lint_findings@,
                front.capability_findings@,
                target_profile,
            ),
            item_views(r.user_unit_spec().package.items@) == cell_items_upto(
                front.cell_outcomes@,
                front.cell_outcomes@.len() as int,
            ),
            r.package_store.units@[0] == front.core_unit,
            r.package_store.units@[1] == front.std_unit,
            r.user_unit_spec().tys == front.user_tys,
            r.user_unit_spec().names == front.user_names,
            r.user_unit_spec().sources.sources@.len() == cells@.len(),
            forall|j: int|
                0 <= j < cells@.len() ==> (#[trigger] r.user_unit_spec().sources.sources@[j]).name@
                    == cells@[j].0@ && r.user_unit_spec().sources.sources@[j].contents@
                    == cells@[j].1@,
    {
        let NotebookOutput {
            core_unit,
            std_unit,
            cell_outcomes,
            user_tys,
            user_names,
            lint_findings,
            capability_findings,
        } = front;
        let mut errors: Vec<Error> = Vec::new();
        let mut items: Vec<Item> = Vec::new();
        let mut i: usize = 0;
        while i < cell_outcomes.len()
            invariant
                i <= cell_outcomes.len(),
                errors@ == with_kind(cell_spans_upto(cell_outcomes@, i as int), ErrorKind::Compile),
                item_views(items@) == cell_items_upto(cell_outcomes@, i as int),
            decreases cell_outcomes.len() - i,
        {
            let outcome = &cell_outcomes[i];
            push_tagged(&mut errors, &outcome.errors, ErrorKind::Compile);
            append_items(&mut items, &outcome.items);
            proof {
                lemma_with_kind_concat(
                    cell_spans_upto(cell_outcomes@, i as int),
                    cell_outcomes@[i as int].errors@,
                    ErrorKind::Compile,
                );
                assert(cell_spans_upto(cell_outcomes@, i + 1) == cell_spans_upto(
                    cell_outcomes@,
                    i as int,
                ) + cell_outcomes@[i as int].errors@);
                assert(cell_items_upto(cell_outcomes@, i + 1) == cell_items_upto(
                    cell_outcomes@,
                    i as int,
                ) + item_views(cell_outcomes@[i as int].items@));
                assert(item_views(Seq::<Item>::empty()) =~= Seq::<Seq<u8>>::empty());
            }
            i = i + 1;
        }
        let source_map = SourceMap::new(cells);
        append_lints_when_clean(&mut errors, &lint_findings);
        run_fir_passes(&mut errors, target_profile, &capability_findings);
        let mut package_store = PackageStore::new(core_unit);
        let std_package_id = package_store.insert(std_unit);
        let unit = CompileUnit {
            package: Package { items },
            tys: user_tys,
            names: user_names,
            sources: source_map,
        };
        let package_id = package_store.insert(unit);
        Compilation { package_store, user_package_id: package_id, errors, kind: CompilationKind::Notebook }
    }

    /// Gets the `CompileUnit` associated with user (non-library) code.
    pub fn user_unit(&self) -> (r: &CompileUnit)
        requires
            self.wf(),
        ensures
            *r == self.user_unit_spec(),
    {
        match self.package_store.get(self.user_package_id) {
            Some(unit) => unit,
            None => unreached(),
        }
    }

    /// Maps a source position from the user package to an offset in the
    /// session-global source address space.
    ///
    /// The caller's view of the document may be stale relative to the
    /// compiled snapshot, so a position past the end of the named document
    /// is not an error: the offset is clamped to the document's end and
    /// never reaches into the next document's range.
    pub fn source_position_to_package_offset(
        &self,
        source_name: &Vec<u8>,
        source_position: Position,
        position_encoding: Encoding,
    ) -> (r: u32)
        requires
            self.wf(),
            self.user_unit_spec().sources.has_name(source_name@),
        ensures
            ({
                let sm = self.user_unit_spec().sources;
                let src = sm.sources@[sm.index_of_name(source_name@)];
                &&& r as int == src.offset + offset_in_contents(
                    src.contents@,
                    source_position.line as int,
                    source_position.column as int,
                    position_encoding,
                )
                &&& src.offset <= r
                &&& r as int <= src.offset + src.contents@.len()
            }),
    {
        let unit = self.user_unit();
        let idx = match unit.sources.find_by_name(source_name) {
            Some(idx) => idx,
            None => unreached(),
        };
        let source = &unit.sources.sources[idx];
        let offset = contents_offset(
            &source.contents,
            source_position.line,
            source_position.column,
            position_encoding,
        );
        proof {
            lemma_offset_in_contents_bounds(
                source.contents@,
                source_position.line as int,
                source_position.column as int,
                position_encoding,
            );
        }
        source.offset + (offset as u32)
    }

    /// Gets the span of a whole source file in the session-global address
    /// space.
    pub fn package_span_of_source(&self, source_name: &Vec<u8>) -> (r: Span)
        requires
            self.wf(),
            self.user_unit_spec().sources.has_name(source_name@),
        ensures
            ({
                let sm = self.user_unit_spec().sources;
                let src = sm.sources@[sm.index_of_name(source_name@)];
                &&& r.lo == src.offset
                &&& r.hi as int == src.offset + src.contents@.len()
            }),
    {
        let unit = self.user_unit();
        let idx = match unit.sources.find_by_name(source_name) {
            Some(idx) => idx,
            None => unreached(),
        };
        let source = &unit.sources.sources[idx];
        let len: usize = source.contents.len();
        Span { lo: source.offset, hi: source.offset + (len as u32) }
    }

    /// Looks up the type of a node in user code; absence is a valid "not
    /// yet inferred" outcome, not an error.
    pub fn get_ty(&self, id: usize) -> (r: Option<Ty>)
        requires
            self.wf(),
        ensures
            r == (if id < self.user_unit_spec().tys@.len() {
                self.user_unit_spec().tys@[id as int]
            } else {
                None::<Ty>
            }),
    {
        let unit = self.user_unit();
        if id < unit.tys.len() {
            unit.tys[id]
        } else {
            None
        }
    }

    /// Looks up the resolution of a node in user code; absence is a valid
    /// "not yet resolved" outcome, not an error.
    pub fn get_res(&self, id: usize) -> (r: Option<Res>)
        requires
            self.wf(),
        ensures
            r == (if id < self.user_unit_spec().names@.len() {
                self.user_unit_spec().names@[id as int]
            } else {
                None::<Res>
            }),
    {
        let unit = self.user_unit();
        if id < unit.names.len() {
            unit.names[id]
        } else {
            None
        }
    }

    /// Returns the item referred to by `item_id`, along with the package it
    /// was found in and the normalized absolute reference to it.
    ///
    /// References are relative: one without a package identifier points into
    /// the package it itself came from, so the originating package's
    /// identifier is threaded through every resolution call.
    pub fn resolve_item<'a>(&'a self, local_package_id: PackageId, item_id: &ItemId) -> (r: (
        &'a Item,
        &'a Package,
        ItemId,
    ))
        requires
            valid_item_ref(self.package_store, local_package_id, *item_id),
        ensures
            ({
                let pid = target_package(*item_id, local_package_id);
                &&& *r.1 == self.package_store.units@[pid].package
                &&& *r.0 == self.package_store.units@[pid].package.items@[item_id.item as int]
                &&& r.2 == (ItemId { package: Some(pid as PackageId), item: item_id.item })
            }),
    {
        let package_id: PackageId = match item_id.package {
            Some(p) => p,
            None => local_package_id,
        };
        let unit = match self.package_store.get(package_id) {
            Some(unit) => unit,
            None => unreached(),
        };
        let package = &unit.package;
        let item = &package.items[item_id.item];
        (item, package, ItemId { package: Some(package_id), item: item_id.item })
    }

    /// Returns the item referred to by `item_id`, resolved relative to the
    /// user package.
    pub fn resolve_item_relative_to_user_package<'a>(&'a self, item_id: &ItemId) -> (r: (
        &'a Item,
        &'a Package,
        ItemId,
    ))
        requires
            valid_item_ref(self.package_store, self.user_package_id, *item_id),
        ensures
            ({
                let pid = target_package(*item_id, self.user_package_id);
                &&& *r.1 == self.package_store.units@[pid].package
                &&& *r.0 == self.package_store.units@[pid].package.items@[item_id.item as int]
                &&& r.2 == (ItemId { package: Some(pid as PackageId), item: item_id.item })
            }),
    {
        self.resolve_item(self.user_package_id, item_id)
    }

    /// Returns the item a resolution denotes. Only item-kind resolutions
    /// reach this call by construction of the caller, so any other kind is
    /// excluded outright.
    pub fn resolve_item_res<'a>(&'a self, local_package_id: PackageId, res: &Res) -> (r: (
        &'a Item,
        ItemId,
    ))
        requires
            *res matches Res::Item(item_id) && valid_item_ref(
                self.package_store,
                local_package_id,
                item_id,
            ),
        ensures
            ({
                let item_id = res->Item_0;
                let pid = target_package(item_id, local_package_id);
                &&& *r.0 == self.package_store.units@[pid].package.items@[item_id.item as int]
                &&& r.1 == (ItemId { package: Some(pid as PackageId), item: item_id.item })
            }),
    {
        match res {
            Res::Item(item_id) => {
                let (item, _, resolved_item_id) = self.resolve_item(local_package_id, item_id);
                (item, resolved_item_id)
            },
            _ => unreached(),
        }
    }

    /// Regenerates the compilation with the same sources but the passed-in
    /// configuration.
    ///
    /// The current user package's sources are re-extracted with name, text
    /// and order preserved, the matching construction path reruns off to the
    /// side, and only then are the store, the user-package identifier and
    /// the diagnostics list replaced, so a reader observes either the old
    /// snapshot or the new one, never a torn mix.
    pub fn recompile(
        &mut self,
        package_type: PackageType,
        target_profile: Profile,
        language_features: LanguageFeatures,
        lints_config: &Vec<LintConfig>,
        front: FrontendOutput,
    )
        requires
            old(self).wf(),
            (front matches FrontendOutput::OpenProject(_)) <==> old(self).kind
                == CompilationKind::OpenProject,
            front matches FrontendOutput::Notebook(out) ==> out.cell_outcomes@.len() == old(
                self,
            ).user_unit_spec().sources.sources@.len(),
        ensures
            final(self).wf(),
            final(self).kind == old(self).kind,
            final(self).user_unit_spec().sources.sources@.len()
                == old(self).user_unit_spec().sources.sources@.len(),
            forall|j: int|
                0 <= j < old(self).user_unit_spec().sources.sources@.len()
                    ==> (#[trigger] final(self).user_unit_spec().sources.sources@[j]).name@
                    == old(self).user_unit_spec().sources.sources@[j].name@
                    && final(self).user_unit_spec().sources.sources@[j].contents@
                    == old(self).user_unit_spec().sources.sources@[j].contents@,
            (match front {
                FrontendOutput::OpenProject(out) => final(self).errors@ == batch_errors(
                    out.compile_errors@,
                    out.lint_findings@,
                    out.capability_findings@,
                    target_profile,
                ),
                FrontendOutput::Notebook(out) => final(self).errors@ == notebook_errors(
                    out.cell_outcomes@,
                    out.lint_findings@,
                    out.capability_findings@,
                    target_profile,
                ),
            }),
    {
        let entries = self.user_unit().sources.to_entries();
        match front {
            FrontendOutput::OpenProject(out) => {
                let fresh = Self::new(
                    &entries,
                    package_type,
                    target_profile,
                    language_features,
                    lints_config,
                    out,
                );
                self.package_store = fresh.package_store;
                self.user_package_id = fresh.user_package_id;
                self.errors = fresh.errors;
            },
            FrontendOutput::Notebook(out) => {
                let fresh = Self::new_notebook(
                    &entries,
                    target_profile,
                    language_features,
                    lints_config,
                    out,
                );
                self.package_store = fresh.package_store;
                self.user_package_id = fresh.user_package_id;
                self.errors = fresh.errors;
            },
        }
    }
}

} // verus!
