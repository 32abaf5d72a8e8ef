//! What holds of every struct and of every table of types.

use super::alignment::{round_up_to, Alignment};
use super::capabilities::Capabilities;
use super::error::{TypeError, TypeErrorModel};
use super::flags::TypeFlags;
use super::ir::{GlobalCtx, Handle, StructMember, TypeInner};
use super::struct_layout::{
    lemma_walk_keeps_error, member_name, members_walked, struct_validity, MEMBER_REQUIRED,
};
use super::type_info::{Disalignment, LayoutCompatibility, TypeInfo};
use super::validator::{type_validity, types_outcome, types_validated, TypeLayout, Validator};
use vstd::prelude::*;

verus! {

/// The entry of the type of member `i`.
pub open spec fn member_info(members: Seq<StructMember>, infos: Seq<TypeInfo>, i: int) -> TypeInfo {
    infos[members[i].ty.index as int]
}

/// The shape of the type of member `i`.
pub open spec fn member_inner(members: Seq<StructMember>, gctx: &GlobalCtx, i: int) -> TypeInner {
    gctx.types@[members[i].ty.index as int].inner
}

/// Where member `i` ends: its offset and the size of its type.
pub open spec fn member_end(members: Seq<StructMember>, gctx: &GlobalCtx, i: int) -> int {
    members[i].offset + gctx.sizes@[members[i].ty.index as int]
}

/// Where member `i` may start: at the end of the member before it.
pub open spec fn min_offset_at(members: Seq<StructMember>, gctx: &GlobalCtx, i: int) -> int {
    if i == 0 {
        0
    } else {
        member_end(members, gctx, i - 1)
    }
}

/// The span and the offset of the member before member `i`, if that one is
/// a struct.
pub open spec fn prev_struct_at(members: Seq<StructMember>, gctx: &GlobalCtx, i: int) -> Option<
    (u32, u32),
> {
    if i == 0 {
        None
    } else {
        match member_inner(members, gctx, i - 1) {
            TypeInner::Struct { span, .. } => Some((span, members[i - 1].offset)),
            _ => None,
        }
    }
}

/// Whether member `i` passes the checks that refuse a struct: its type is
/// data of a resolved size; it starts at or after the end of the member
/// before it, or at zero; it ends inside the struct; and it has a size,
/// unless it is an array at the end of the struct.
pub open spec fn member_passes(
    members: Seq<StructMember>,
    span: u32,
    infos: Seq<TypeInfo>,
    gctx: &GlobalCtx,
    i: int,
) -> bool {
    let info = member_info(members, infos, i);
    &&& info.flags.has(MEMBER_REQUIRED)
    &&& (members[i].offset >= min_offset_at(members, gctx, i) || members[i].offset == 0)
    &&& member_end(members, gctx, i) <= span
    &&& (info.flags.has(TypeFlags::SIZED) || (member_inner(members, gctx, i) is Array && i + 1
        == members.len()))
}

/// The uniform layout of an entry, or its storage layout.
pub open spec fn layout_of(info: TypeInfo, uniform: bool) -> LayoutCompatibility {
    if uniform {
        info.uniform_layout
    } else {
        info.storage_layout
    }
}

/// The alignment that a struct has gathered from its first `upto` members:
/// the greatest of theirs and of the least alignment of the layout, which
/// is sixteen for the uniform layout and one for the storage layout.
pub open spec fn gathered_alignment(
    members: Seq<StructMember>,
    infos: Seq<TypeInfo>,
    uniform: bool,
    upto: nat,
) -> Alignment
    decreases upto,
{
    if upto == 0 {
        Alignment {
            value: if uniform {
                Alignment::MIN_UNIFORM
            } else {
                1
            },
        }
    } else {
        gathered_alignment(members, infos, uniform, (upto - 1) as nat).join(
            layout_of(member_info(members, infos, upto - 1), uniform)->Ok_0,
        )
    }
}

/// Whether member `i` follows a struct member at the distance that the
/// uniform layout asks for: the span of that struct, rounded up to sixteen.
pub open spec fn spaced(members: Seq<StructMember>, gctx: &GlobalCtx, i: int) -> bool {
    prev_struct_at(members, gctx, i) matches Some((prev_span, prev_offset)) ==> members[i].offset
        - prev_offset >= round_up_to(Alignment::MIN_UNIFORM as int, prev_span as int)
}

/// Whether member `i` is placed as a layout asks: the host can share its
/// type, the type fits the layout, and the offset is a multiple of the
/// alignment gathered up to and with this member. The uniform layout asks
/// also that the member has a size and keeps its distance from a struct
/// member before it.
pub open spec fn member_fits(
    members: Seq<StructMember>,
    infos: Seq<TypeInfo>,
    gctx: &GlobalCtx,
    uniform: bool,
    i: int,
) -> bool {
    let info = member_info(members, infos, i);
    &&& info.flags.has(TypeFlags::HOST_SHAREABLE)
    &&& layout_of(info, uniform) is Ok
    &&& gathered_alignment(members, infos, uniform, (i + 1) as nat).aligns(members[i].offset)
    &&& uniform ==> info.flags.has(TypeFlags::SIZED) && spaced(members, gctx, i)
}

/// After `upto` members that did not fail, the walk stands at the end of
/// the last of them and remembers it if it is a struct.
pub proof fn lemma_walk_state(
    handle: Handle,
    members: Seq<StructMember>,
    span: u32,
    infos: Seq<TypeInfo>,
    gctx: &GlobalCtx,
    upto: nat,
)
    requires
        members_walked(handle, members, span, infos, gctx, upto) is Ok,
    ensures
        upto > 0 ==> members_walked(handle, members, span, infos, gctx, (upto - 1) as nat) is Ok,
        members_walked(handle, members, span, infos, gctx, upto)->Ok_0.min_offset
            == min_offset_at(members, gctx, upto as int),
        members_walked(handle, members, span, infos, gctx, upto)->Ok_0.prev_struct_data
            == prev_struct_at(members, gctx, upto as int),
{
}

/// Members that pass the checks do not fail the walk.
pub proof fn lemma_members_pass(
    handle: Handle,
    members: Seq<StructMember>,
    span: u32,
    infos: Seq<TypeInfo>,
    gctx: &GlobalCtx,
    upto: nat,
)
    requires
        upto <= members.len(),
        forall|i: int| 0 <= i < upto ==> #[trigger] member_passes(members, span, infos, gctx, i),
    ensures
        members_walked(handle, members, span, infos, gctx, upto) is Ok,
    decreases upto,
{
    if upto > 0 {
        lemma_members_pass(handle, members, span, infos, gctx, (upto - 1) as nat);
        lemma_walk_state(handle, members, span, infos, gctx, (upto - 1) as nat);
        assert(member_passes(members, span, infos, gctx, upto - 1));
    }
}

/// Where the walk did not fail and the members are placed as a layout asks,
/// the struct fits that layout so far, with the alignment gathered from the
/// members.
pub proof fn lemma_walk_layout(
    handle: Handle,
    members: Seq<StructMember>,
    span: u32,
    infos: Seq<TypeInfo>,
    gctx: &GlobalCtx,
    uniform: bool,
    upto: nat,
)
    requires
        upto <= members.len(),
        members_walked(handle, members, span, infos, gctx, upto) is Ok,
        forall|i: int| 0 <= i < upto ==> #[trigger] member_fits(members, infos, gctx, uniform, i),
    ensures
        layout_of(members_walked(handle, members, span, infos, gctx, upto)->Ok_0.info, uniform)
            == Ok::<Alignment, (Handle, Disalignment)>(
            gathered_alignment(members, infos, uniform, upto),
        ),
    decreases upto,
{
    if upto > 0 {
        lemma_walk_state(handle, members, span, infos, gctx, upto);
        lemma_walk_layout(handle, members, span, infos, gctx, uniform, (upto - 1) as nat);
        lemma_walk_state(handle, members, span, infos, gctx, (upto - 1) as nat);
        assert(member_fits(members, infos, gctx, uniform, upto - 1));
    }
}

/// Members that did not fail the walk pass the checks.
pub proof fn lemma_walked_members_pass(
    handle: Handle,
    members: Seq<StructMember>,
    span: u32,
    infos: Seq<TypeInfo>,
    gctx: &GlobalCtx,
    upto: nat,
)
    requires
        upto <= members.len(),
        members_walked(handle, members, span, infos, gctx, upto) is Ok,
    ensures
        forall|i: int| 0 <= i < upto ==> #[trigger] member_passes(members, span, infos, gctx, i),
    decreases upto,
{
    if upto > 0 {
        lemma_walk_state(handle, members, span, infos, gctx, upto);
        lemma_walked_members_pass(handle, members, span, infos, gctx, (upto - 1) as nat);
        lemma_walk_state(handle, members, span, infos, gctx, (upto - 1) as nat);
        assert(member_passes(members, span, infos, gctx, upto - 1));
    }
}

/// Where the walk did not fail and the struct fits a layout so far, the
/// members are placed as the layout asks: an error of a layout is never
/// taken back.
pub proof fn lemma_layout_needs_fit(
    handle: Handle,
    members: Seq<StructMember>,
    span: u32,
    infos: Seq<TypeInfo>,
    gctx: &GlobalCtx,
    uniform: bool,
    upto: nat,
)
    requires
        upto <= members.len(),
        members_walked(handle, members, span, infos, gctx, upto) is Ok,
        layout_of(members_walked(handle, members, span, infos, gctx, upto)->Ok_0.info, uniform)
            is Ok,
    ensures
        forall|i: int| 0 <= i < upto ==> #[trigger] member_fits(members, infos, gctx, uniform, i),
    decreases upto,
{
    if upto > 0 {
        let before = (upto - 1) as nat;
        lemma_walk_state(handle, members, span, infos, gctx, upto);
        lemma_walk_state(handle, members, span, infos, gctx, before);
        let earlier = members_walked(handle, members, span, infos, gctx, before)->Ok_0;
        assert(layout_of(earlier.info, uniform) is Ok);
        lemma_layout_needs_fit(handle, members, span, infos, gctx, uniform, before);
        lemma_walk_layout(handle, members, span, infos, gctx, uniform, before);
        assert(member_fits(members, infos, gctx, uniform, upto - 1));
    }
}

/// A struct is valid exactly when it has a member and its members pass the
/// checks.
pub proof fn lemma_struct_valid_iff_members_pass(
    handle: Handle,
    members: Seq<StructMember>,
    span: u32,
    infos: Seq<TypeInfo>,
    alignment: Alignment,
    gctx: &GlobalCtx,
)
    ensures
        struct_validity(handle, members, span, infos, alignment, gctx) is Ok <==> 0
            < members.len() && forall|i: int|
            0 <= i < members.len() ==> #[trigger] member_passes(members, span, infos, gctx, i),
{
    if struct_validity(handle, members, span, infos, alignment, gctx) is Ok {
        lemma_walked_members_pass(handle, members, span, infos, gctx, members.len());
    }
    if 0 < members.len() && forall|i: int|
        0 <= i < members.len() ==> #[trigger] member_passes(members, span, infos, gctx, i) {
        lemma_members_pass(handle, members, span, infos, gctx, members.len());
    }
}

/// Whether a struct is well placed: it has a member, its members pass the
/// checks and are placed as both layouts ask, and its span is a multiple of
/// its alignment.
///
/// The members then stand at offsets that do not overlap and are aligned; a
/// member at offset zero is let through as well, as the validator lets it.
pub open spec fn well_placed(
    members: Seq<StructMember>,
    span: u32,
    infos: Seq<TypeInfo>,
    alignment: Alignment,
    gctx: &GlobalCtx,
) -> bool {
    &&& 0 < members.len()
    &&& forall|i: int|
        0 <= i < members.len() ==> #[trigger] member_passes(members, span, infos, gctx, i)
    &&& forall|i: int|
        0 <= i < members.len() ==> #[trigger] member_fits(members, infos, gctx, true, i)
    &&& forall|i: int|
        0 <= i < members.len() ==> #[trigger] member_fits(members, infos, gctx, false, i)
    &&& alignment.aligns(span)
}

/// Whether validating a struct gives an entry that fits both layouts.
pub open spec fn fits_both_layouts(validity: Result<TypeInfo, TypeErrorModel>) -> bool {
    validity matches Ok(info) && info.uniform_layout is Ok && info.storage_layout is Ok
}

/// A struct that is well placed is valid and fits both layouts, each with
/// the alignment gathered from the members.
pub proof fn lemma_well_placed_struct_fits(
    handle: Handle,
    members: Seq<StructMember>,
    span: u32,
    infos: Seq<TypeInfo>,
    alignment: Alignment,
    gctx: &GlobalCtx,
)
    requires
        well_placed(members, span, infos, alignment, gctx),
    ensures
        struct_validity(handle, members, span, infos, alignment, gctx) matches Ok(info)
            && info.uniform_layout == Ok::<Alignment, (Handle, Disalignment)>(
            gathered_alignment(members, infos, true, members.len()),
        ) && info.storage_layout == Ok::<Alignment, (Handle, Disalignment)>(
            gathered_alignment(members, infos, false, members.len()),
        ),
{
    lemma_members_pass(handle, members, span, infos, gctx, members.len());
    lemma_walk_layout(handle, members, span, infos, gctx, true, members.len());
    lemma_walk_layout(handle, members, span, infos, gctx, false, members.len());
}

/// A struct is valid and fits both layouts exactly when it is well placed.
pub proof fn lemma_fits_both_layouts_iff_well_placed(
    handle: Handle,
    members: Seq<StructMember>,
    span: u32,
    infos: Seq<TypeInfo>,
    alignment: Alignment,
    gctx: &GlobalCtx,
)
    ensures
        fits_both_layouts(struct_validity(handle, members, span, infos, alignment, gctx))
            <==> well_placed(members, span, infos, alignment, gctx),
{
    if well_placed(members, span, infos, alignment, gctx) {
        lemma_well_placed_struct_fits(handle, members, span, infos, alignment, gctx);
    }
    if fits_both_layouts(struct_validity(handle, members, span, infos, alignment, gctx)) {
        let n = members.len();
        lemma_walked_members_pass(handle, members, span, infos, gctx, n);
        lemma_layout_needs_fit(handle, members, span, infos, gctx, true, n);
        lemma_layout_needs_fit(handle, members, span, infos, gctx, false, n);
    }
}

/// A member that starts before the end of the member before it, and not at
/// zero, has the struct refused as overlapping at that member, provided
/// that the members before it did not fail and that its type is data of a
/// resolved size.
pub proof fn lemma_overlapping_member_is_refused(
    handle: Handle,
    members: Seq<StructMember>,
    span: u32,
    infos: Seq<TypeInfo>,
    alignment: Alignment,
    gctx: &GlobalCtx,
    i: nat,
)
    requires
        0 < i < members.len() <= u32::MAX,
        members_walked(handle, members, span, infos, gctx, i) is Ok,
        member_info(members, infos, i as int).flags.has(MEMBER_REQUIRED),
        members[i as int].offset < member_end(members, gctx, i - 1),
        members[i as int].offset != 0,
    ensures
        struct_validity(handle, members, span, infos, alignment, gctx) == Err::<
            TypeInfo,
            TypeErrorModel,
        >(
            TypeErrorModel::MemberOverlap {
                index: i as u32,
                offset: members[i as int].offset,
            },
        ),
{
    lemma_walk_state(handle, members, span, infos, gctx, i);
    lemma_walk_keeps_error(handle, members, span, infos, gctx, i + 1, members.len());
}

/// A member without a size, whose type is an array and which passes the
/// checks before that of its size, must be the last: the struct is valid
/// exactly when it is, and is else refused for this member. Where it is
/// valid it does not fit the uniform layout and has no size itself.
pub proof fn lemma_unsized_member_must_be_last(
    handle: Handle,
    members: Seq<StructMember>,
    span: u32,
    infos: Seq<TypeInfo>,
    alignment: Alignment,
    gctx: &GlobalCtx,
    i: nat,
)
    requires
        i < members.len() <= u32::MAX,
        members_walked(handle, members, span, infos, gctx, i) is Ok,
        member_inner(members, gctx, i as int) is Array,
        member_info(members, infos, i as int).flags.has(MEMBER_REQUIRED),
        !member_info(members, infos, i as int).flags.has(TypeFlags::SIZED),
        members[i as int].offset >= min_offset_at(members, gctx, i as int) || members[i as int].offset
            == 0,
        member_end(members, gctx, i as int) <= span,
    ensures
        struct_validity(handle, members, span, infos, alignment, gctx) is Ok <==> i + 1
            == members.len(),
        i + 1 != members.len() ==> struct_validity(handle, members, span, infos, alignment, gctx)
            == Err::<TypeInfo, TypeErrorModel>(
            TypeErrorModel::InvalidDynamicArray(
                member_name(members[i as int]),
                members[i as int].ty,
            ),
        ),
        i + 1 == members.len() ==> (struct_validity(
            handle,
            members,
            span,
            infos,
            alignment,
            gctx,
        ) matches Ok(info) && info.uniform_layout is Err && !info.flags.has(TypeFlags::SIZED)),
{
    lemma_walk_state(handle, members, span, infos, gctx, i);
    let state = members_walked(handle, members, span, infos, gctx, i)->Ok_0;
    let base = member_info(members, infos, i as int);
    if i + 1 != members.len() {
        lemma_walk_keeps_error(handle, members, span, infos, gctx, i + 1, members.len());
    } else {
        let s = state.info.flags.bits;
        let b = base.flags.bits;
        assert(b & 0x2 != 0x2 ==> ((s & b) & 0x2 != 0x2 && ((s & b) & !0x10u8) & 0x2 != 0x2))
            by (bit_vector);
    }
}

/// A last member that follows a struct member too closely leaves the
/// struct valid but unfit for the uniform layout, for that reason; the
/// storage layout does not know the rule, and the struct fits it where its
/// members are placed as the storage layout asks.
pub proof fn lemma_member_too_close_after_struct(
    handle: Handle,
    members: Seq<StructMember>,
    span: u32,
    infos: Seq<TypeInfo>,
    alignment: Alignment,
    gctx: &GlobalCtx,
)
    requires
        2 <= members.len() <= u32::MAX,
        struct_validity(handle, members, span, infos, alignment, gctx) is Ok,
        alignment.aligns(span),
        member_inner(members, gctx, members.len() - 2) is Struct,
        members[members.len() - 1].offset < members[members.len() - 2].offset + round_up_to(
            Alignment::MIN_UNIFORM as int,
            member_inner(members, gctx, members.len() - 2)->Struct_span as int,
        ),
    ensures
        struct_validity(handle, members, span, infos, alignment, gctx)->Ok_0.uniform_layout
            == Err::<Alignment, (Handle, Disalignment)>(
            (
                handle,
                Disalignment::MemberOffsetAfterStruct {
                    index: (members.len() - 1) as u32,
                    offset: members[members.len() - 1].offset,
                    expected: (members[members.len() - 2].offset + round_up_to(
                        Alignment::MIN_UNIFORM as int,
                        member_inner(members, gctx, members.len() - 2)->Struct_span as int,
                    )) as u64,
                },
            ),
        ),
        (forall|i: int|
            0 <= i < members.len() ==> #[trigger] member_fits(members, infos, gctx, false, i))
            ==> struct_validity(
            handle,
            members,
            span,
            infos,
            alignment,
            gctx,
        )->Ok_0.storage_layout == Ok::<Alignment, (Handle, Disalignment)>(
            gathered_alignment(members, infos, false, members.len()),
        ),
{
    let n = members.len();
    lemma_walk_state(handle, members, span, infos, gctx, n);
    lemma_walk_state(handle, members, span, infos, gctx, (n - 1) as nat);
    if forall|i: int| 0 <= i < members.len() ==> #[trigger] member_fits(members, infos, gctx, false, i) {
        lemma_walk_layout(handle, members, span, infos, gctx, false, n);
    }
}

/// Validating a type reads only the entries of the types before it: two
/// tables that agree below `handle` give the same answer for `handle`.
pub proof fn lemma_validity_reads_earlier_entries(
    capabilities: Capabilities,
    first: Seq<TypeInfo>,
    second: Seq<TypeInfo>,
    layouts: Seq<TypeLayout>,
    gctx: &GlobalCtx,
    handle: Handle,
)
    requires
        gctx.wf(),
        handle.index < gctx.types@.len(),
        forall|i: int| 0 <= i < handle.index ==> first[i] == second[i],
    ensures
        type_validity(capabilities, first, layouts, gctx, handle) == type_validity(
            capabilities,
            second,
            layouts,
            gctx,
            handle,
        ),
{
    let inner = gctx.types@[handle.index as int].inner;
    assert(inner.refers_below(handle.index as int));
    match inner {
        TypeInner::Struct { members, span } => {
            lemma_walk_reads_earlier_entries(
                handle,
                members@,
                span,
                first,
                second,
                gctx,
                members@.len(),
            );
        },
        _ => {},
    }
}

/// The walk over the members of the struct `handle` reads only the entries
/// of the types before `handle`.
pub proof fn lemma_walk_reads_earlier_entries(
    handle: Handle,
    members: Seq<StructMember>,
    span: u32,
    first: Seq<TypeInfo>,
    second: Seq<TypeInfo>,
    gctx: &GlobalCtx,
    upto: nat,
)
    requires
        upto <= members.len(),
        forall|i: int| 0 <= i < members.len() ==> (#[trigger] members[i]).ty.index < handle.index,
        forall|i: int| 0 <= i < handle.index ==> first[i] == second[i],
    ensures
        members_walked(handle, members, span, first, gctx, upto) == members_walked(
            handle,
            members,
            span,
            second,
            gctx,
            upto,
        ),
    decreases upto,
{
    if upto > 0 {
        lemma_walk_reads_earlier_entries(
            handle,
            members,
            span,
            first,
            second,
            gctx,
            (upto - 1) as nat,
        );
        assert(members[upto - 1].ty.index < handle.index);
    }
}

/// An entry is written once: the table after `later` types holds, below
/// `earlier`, what the table after `earlier` types held.
pub proof fn lemma_entries_are_written_once(
    capabilities: Capabilities,
    layouts: Seq<TypeLayout>,
    gctx: &GlobalCtx,
    earlier: nat,
    later: nat,
)
    requires
        earlier <= later <= gctx.types@.len(),
        types_validated(capabilities, layouts, gctx, later) is Ok,
    ensures
        types_validated(capabilities, layouts, gctx, earlier) is Ok,
        types_validated(capabilities, layouts, gctx, later)->Ok_0.len() == gctx.types@.len(),
        forall|h: int|
            0 <= h < earlier ==> types_validated(capabilities, layouts, gctx, later)->Ok_0[h]
                == types_validated(capabilities, layouts, gctx, earlier)->Ok_0[h],
    decreases later,
{
    if later > 0 {
        if earlier < later {
            lemma_entries_are_written_once(
                capabilities,
                layouts,
                gctx,
                earlier,
                (later - 1) as nat,
            );
        } else {
            lemma_entries_are_written_once(
                capabilities,
                layouts,
                gctx,
                (later - 1) as nat,
                (later - 1) as nat,
            );
        }
    }
}

/// In the table of a module whose types are all valid, the entry of each
/// type is what validating that type against the finished table gives.
pub proof fn lemma_entries_are_validities(
    capabilities: Capabilities,
    layouts: Seq<TypeLayout>,
    gctx: &GlobalCtx,
    handle: Handle,
)
    requires
        gctx.wf(),
        handle.index < gctx.types@.len(),
        types_validated(capabilities, layouts, gctx, gctx.types@.len()) is Ok,
    ensures
        type_validity(
            capabilities,
            types_validated(capabilities, layouts, gctx, gctx.types@.len())->Ok_0,
            layouts,
            gctx,
            handle,
        ) == Ok::<TypeInfo, TypeErrorModel>(
            types_validated(capabilities, layouts, gctx, gctx.types@.len())->Ok_0[handle.index as int],
        ),
{
    let n = gctx.types@.len();
    let h = handle.index as nat;
    let table = types_validated(capabilities, layouts, gctx, n)->Ok_0;
    lemma_entries_are_written_once(capabilities, layouts, gctx, h, n);
    lemma_entries_are_written_once(capabilities, layouts, gctx, h + 1, n);
    lemma_entries_are_written_once(capabilities, layouts, gctx, h, h);
    let before = types_validated(capabilities, layouts, gctx, h)->Ok_0;
    assert(handle == Handle { index: h as u32 });
    lemma_validity_reads_earlier_entries(capabilities, table, before, layouts, gctx, handle);
}

/// Validating the same module twice, under the same capabilities and with
/// the same layouts, gives the same table and the same result, whatever the
/// validator held before either pass.
pub proof fn lemma_validation_is_idempotent(
    capabilities: Capabilities,
    layouts: Seq<TypeLayout>,
    gctx: &GlobalCtx,
    first: Validator,
    first_result: Result<(), (Handle, TypeError)>,
    second: Validator,
    second_result: Result<(), (Handle, TypeError)>,
)
    requires
        types_outcome(capabilities, layouts, gctx, first, first_result),
        types_outcome(capabilities, layouts, gctx, second, second_result),
    ensures
        first.types@ == second.types@,
        first.capabilities == second.capabilities,
        first.layouter.layouts@ == second.layouter.layouts@,
        first_result is Ok <==> second_result is Ok,
        first_result matches Err((handle, e)) ==> (second_result matches Err((other, f))
            && handle == other && e@ == f@),
{
}

} // verus!
