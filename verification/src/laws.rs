use crate::config::{Encoding, Profile};
use crate::diagnostics::{with_kind, Error, ErrorKind};
use crate::session::{
    batch_errors, capability_step, cell_items_upto, cell_spans_upto, item_views, lint_gate_step,
    notebook_errors, target_package, valid_item_ref, CellOutcome,
};
use crate::source_map::{lemma_offset_in_contents_bounds, offset_in_contents, Source};
use crate::span::Span;
use crate::store::{ItemId, PackageId, PackageStore};
use vstd::prelude::*;

verus! {

/// Law: the gated lint step runs only while the diagnostics list is empty at
/// the time of the check, and lint findings never remove or reorder prior
/// diagnostics — the old list is always a prefix of the new one.
pub proof fn lemma_lints_gated_and_monotonic(errors: Seq<Error>, lints: Seq<Span>)
    ensures
        errors.len() > 0 ==> lint_gate_step(errors, lints) == errors,
        errors.len() == 0 ==> lint_gate_step(errors, lints) == errors + with_kind(
            lints,
            ErrorKind::Lint,
        ),
        lint_gate_step(errors, lints).subrange(0, errors.len() as int) == errors,
{
    assert(lint_gate_step(errors, lints).subrange(0, errors.len() as int) =~= errors);
}

/// Law: the capability step only ever appends — whatever it contributes, the
/// diagnostics already collected stay in place, untouched and in order.
pub proof fn lemma_capability_step_monotonic(errors: Seq<Error>, profile: Profile, caps: Seq<Span>)
    ensures
        capability_step(errors, profile, caps).subrange(0, errors.len() as int) == errors,
        capability_step(errors, profile, caps).len() >= errors.len(),
{
    assert(capability_step(errors, profile, caps).subrange(0, errors.len() as int) =~= errors);
}

/// Law: in a batch build with zero source errors (and nothing for the first
/// lint run to report), the capability pass runs if and only if the target
/// profile is neither the fully restricted baseline nor the fully
/// unrestricted profile; every violation it reports increases the
/// diagnostics count, and the diagnostics collected before it stay a prefix.
pub proof fn lemma_capability_pass_gate(
    compile: Seq<Span>,
    lints: Seq<Span>,
    caps: Seq<Span>,
    profile: Profile,
)
    requires
        compile.len() == 0,
        lints.len() == 0,
    ensures
        ({
            let before = lint_gate_step(with_kind(compile, ErrorKind::Compile), lints);
            let after = capability_step(before, profile, caps);
            &&& profile.needs_capability_check() ==> after == before + with_kind(
                caps,
                ErrorKind::Pass,
            )
            &&& !profile.needs_capability_check() ==> after == before
            &&& after.len() == before.len() + (if profile.needs_capability_check() {
                caps.len() as int
            } else {
                0
            })
            &&& after.subrange(0, before.len() as int) == before
            &&& batch_errors(compile, lints, caps, profile) == after + with_kind(
                lints,
                ErrorKind::Lint,
            )
        }),
{
    let before = lint_gate_step(with_kind(compile, ErrorKind::Compile), lints);
    assert(before.len() == 0);
    lemma_capability_step_monotonic(before, profile, caps);
}

/// Law: over the whole batch pipeline, diagnostics only accumulate — the
/// compile errors the front end reported stay an untouched prefix of the
/// final list, whatever the lint and capability steps contribute after them.
pub proof fn lemma_batch_diagnostics_accumulate(
    compile: Seq<Span>,
    lints: Seq<Span>,
    caps: Seq<Span>,
    profile: Profile,
)
    ensures
        batch_errors(compile, lints, caps, profile).subrange(
            0,
            with_kind(compile, ErrorKind::Compile).len() as int,
        ) == with_kind(compile, ErrorKind::Compile),
        batch_errors(compile, lints, caps, profile).len() >= compile.len(),
{
    let after_compile = with_kind(compile, ErrorKind::Compile);
    let after_lints = lint_gate_step(after_compile, lints);
    let after_pass = capability_step(after_lints, profile, caps);
    lemma_lints_gated_and_monotonic(after_compile, lints);
    lemma_capability_step_monotonic(after_lints, profile, caps);
    assert(batch_errors(compile, lints, caps, profile).subrange(
        0,
        after_compile.len() as int,
    ) =~= after_compile);
}

proof fn lemma_cell_spans_upto_covers(cells: Seq<CellOutcome>, k: int, i: int)
    requires
        0 <= k < i <= cells.len(),
    ensures
        cell_spans_upto(cells, i).len() >= cells[k].errors@.len(),
    decreases i,
{
    if k + 1 < i {
        lemma_cell_spans_upto_covers(cells, k, i - 1);
    }
}

proof fn lemma_cell_items_index(cells: Seq<CellOutcome>, j: int, i: int, m: int)
    requires
        0 <= j < m <= cells.len(),
        0 <= i < cells[j].items@.len(),
    ensures
        cell_items_upto(cells, j).len() + i < cell_items_upto(cells, m).len(),
        cell_items_upto(cells, m)[cell_items_upto(cells, j).len() + i] == cells[j].items@[i]@,
    decreases m,
{
    if m == j + 1 {
        assert(item_views(cells[j].items@)[i] == cells[j].items@[i]@);
    } else {
        lemma_cell_items_index(cells, j, i, m - 1);
    }
}

/// Law: in a notebook where one cell fails to compile, the session still
/// reports diagnostics, while every cell's compiled items — the failing
/// cell's aside — remain in the user package at their accumulated position,
/// where normal item resolution finds them.
pub proof fn lemma_notebook_cell_isolation(
    cells: Seq<CellOutcome>,
    lints: Seq<Span>,
    caps: Seq<Span>,
    profile: Profile,
    k: int,
)
    requires
        0 <= k < cells.len(),
        cells[k].errors@.len() > 0,
    ensures
        notebook_errors(cells, lints, caps, profile).len() > 0,
        forall|j: int, i: int|
            0 <= j < cells.len() && 0 <= i < cells[j].items@.len() ==> cell_items_upto(
                cells,
                cells.len() as int,
            )[cell_items_upto(cells, j).len() + i] == (#[trigger] cells[j].items@[i])@,
{
    lemma_cell_spans_upto_covers(cells, k, cells.len() as int);
    let base = with_kind(cell_spans_upto(cells, cells.len() as int), ErrorKind::Compile);
    assert(base.len() > 0);
    lemma_lints_gated_and_monotonic(base, lints);
    lemma_capability_step_monotonic(lint_gate_step(base, lints), profile, caps);
    assert forall|j: int, i: int|
        0 <= j < cells.len() && 0 <= i < cells[j].items@.len() implies cell_items_upto(
        cells,
        cells.len() as int,
    )[cell_items_upto(cells, j).len() + i] == (#[trigger] cells[j].items@[i])@ by {
        lemma_cell_items_index(cells, j, i, cells.len() as int);
    }
}

/// Law: a mapped position always lands within the whole span of its
/// document — at or after the document's base offset, and never past the
/// document's end, whatever line and column the caller supplies.
pub proof fn lemma_position_maps_into_document_span(
    src: Source,
    line: int,
    column: int,
    encoding: Encoding,
)
    ensures
        src.offset <= src.offset + offset_in_contents(src.contents@, line, column, encoding),
        src.offset + offset_in_contents(src.contents@, line, column, encoding) <= src.offset
            + src.contents@.len(),
{
    lemma_offset_in_contents_bounds(src.contents@, line, column, encoding);
}

/// Law: batch construction is deterministic — any two diagnostics lists
/// produced from identical configuration and identical collaborator reports
/// have equal length and equal contents.
pub proof fn lemma_batch_recompile_deterministic(
    errors_a: Seq<Error>,
    errors_b: Seq<Error>,
    compile: Seq<Span>,
    lints: Seq<Span>,
    caps: Seq<Span>,
    profile: Profile,
)
    requires
        errors_a == batch_errors(compile, lints, caps, profile),
        errors_b == batch_errors(compile, lints, caps, profile),
    ensures
        errors_a.len() == errors_b.len(),
        errors_a == errors_b,
{
}

/// Law: notebook construction is deterministic in the same sense as batch
/// construction.
pub proof fn lemma_notebook_recompile_deterministic(
    errors_a: Seq<Error>,
    errors_b: Seq<Error>,
    cells: Seq<CellOutcome>,
    lints: Seq<Span>,
    caps: Seq<Span>,
    profile: Profile,
)
    requires
        errors_a == notebook_errors(cells, lints, caps, profile),
        errors_b == notebook_errors(cells, lints, caps, profile),
    ensures
        errors_a.len() == errors_b.len(),
        errors_a == errors_b,
{
}

/// Law: an absolute item reference resolves to the same package from any
/// originating package, and to the same package as the equivalent relative
/// reference resolved from the package it names — so resolution returns the
/// same item along either route.
pub proof fn lemma_absolute_relative_resolution_agree(
    store: PackageStore,
    origin: PackageId,
    p: PackageId,
    item: usize,
)
    ensures
        ({
            let absolute = ItemId { package: Some(p), item: item };
            let relative = ItemId { package: None, item: item };
            &&& target_package(absolute, origin) == target_package(relative, p)
            &&& (valid_item_ref(store, origin, absolute) <==> valid_item_ref(store, p, relative))
        }),
{
}

} // verus!
