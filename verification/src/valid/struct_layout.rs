use super::alignment::{round_up_to, Alignment};
use super::error::{result_model, TypeError, TypeErrorModel};
use super::flags::{flags_contains, flags_intersect, TypeFlags};
use super::ir::{GlobalCtx, Handle, StructMember, TypeInner};
use super::type_info::{
    combine, combined, layout_wf, Disalignment, LayoutCompatibility, TypeInfo,
};
use vstd::prelude::*;

verus! {

/// What a member must have to stand in a struct.
pub const MEMBER_REQUIRED: u8 = TypeFlags::DATA | TypeFlags::CREATION_RESOLVED;

/// What the walk over the members of one struct carries from member to
/// member.
#[derive(Clone, Copy, Debug, PartialEq, Eq)]
pub struct MemberWalk {
    /// What is known of the struct so far.
    pub info: TypeInfo,
    /// Where the next member may start: the end of the last one.
    pub min_offset: u32,
    /// The span and the offset of the last member, if it is a struct.
    pub prev_struct_data: Option<(u32, u32)>,
}

impl MemberWalk {
    /// The state before the first member: every flag, alignment sixteen for
    /// the uniform layout and one for the storage layout.
    pub open spec fn initial() -> MemberWalk {
        MemberWalk {
            info: TypeInfo {
                flags: TypeFlags { bits: 0xff },
                uniform_layout: Ok(Alignment { value: Alignment::MIN_UNIFORM }),
                storage_layout: Ok(Alignment { value: 1 }),
                push_constant_compatibility: Ok(()),
            },
            min_offset: 0,
            prev_struct_data: None,
        }
    }

    /// The state before the first member.
    pub fn start() -> (r: MemberWalk)
        ensures
            r == MemberWalk::initial(),
            r.info.wf(),
    {
        let mut info = TypeInfo::new(TypeFlags::all(), Alignment::one());
        info.uniform_layout = Ok(Alignment::min_uniform());
        MemberWalk { info, min_offset: 0, prev_struct_data: None }
    }
}

/// The name of a member as characters; empty where it has none.
pub open spec fn member_name(member: StructMember) -> Seq<char> {
    match member.name {
        Some(name) => name@,
        None => Seq::empty(),
    }
}

/// The layout of a struct after a member that the host cannot share: an
/// error that names the member's type, unless the layout is an error
/// already.
pub open spec fn host_shared(
    layout: LayoutCompatibility,
    member_flags: TypeFlags,
    ty: Handle,
) -> LayoutCompatibility {
    if member_flags.has(TypeFlags::HOST_SHAREABLE) {
        layout
    } else {
        combined(layout, Err((ty, Disalignment::NonHostShareable)))
    }
}

/// The layout of a struct after one more member.
///
/// The member needs the greater of its own alignment and the one that the
/// struct has gathered so far, and its offset must be a multiple of that.
/// The first error stays.
pub open spec fn member_laid_out(
    accum: LayoutCompatibility,
    offset: u32,
    member_index: u32,
    member_layout: LayoutCompatibility,
    parent_handle: Handle,
) -> LayoutCompatibility {
    match (accum, member_layout) {
        (Ok(cur_alignment), Ok(alignment)) => {
            let required = cur_alignment.join(alignment);
            if required.aligns(offset) {
                Ok(required)
            } else {
                Err(
                    (
                        parent_handle,
                        Disalignment::MemberOffset {
                            index: member_index,
                            offset,
                            alignment: required,
                        },
                    ),
                )
            }
        },
        (Err(e), _) => Err(e),
        (_, Err(e)) => Err(e),
    }
}

/// The uniform layout of a struct after a member that follows a struct
/// member: between the two offsets must lie the span of the first, rounded
/// up to sixteen bytes.
pub open spec fn spaced_after_struct(
    uniform_layout: LayoutCompatibility,
    prev_struct_data: Option<(u32, u32)>,
    offset: u32,
    member_index: u32,
    parent_handle: Handle,
) -> LayoutCompatibility {
    match prev_struct_data {
        Some((prev_span, prev_offset)) => {
            let min = round_up_to(Alignment::MIN_UNIFORM as int, prev_span as int);
            if offset - prev_offset < min {
                Err(
                    (
                        parent_handle,
                        Disalignment::MemberOffsetAfterStruct {
                            index: member_index,
                            offset,
                            expected: (prev_offset + min) as u64,
                        },
                    ),
                )
            } else {
                uniform_layout
            }
        },
        None => uniform_layout,
    }
}

/// What checking one member does to the walk: the next state, or the error
/// that ends the validation of the struct.
///
/// `base_info`, `base_size` and `base_inner` are the entry, the size and the
/// shape of the member's type.
pub open spec fn member_checked(
    state: MemberWalk,
    handle: Handle,
    span: u32,
    index: u32,
    member: StructMember,
    is_last: bool,
    base_info: TypeInfo,
    base_size: u32,
    base_inner: TypeInner,
) -> Result<MemberWalk, TypeErrorModel> {
    let flags = TypeFlags { bits: state.info.flags.bits & base_info.flags.bits };
    let overlaps = member.offset < state.min_offset;
    let end = member.offset + base_size;
    let uniform_layout = spaced_after_struct(
        member_laid_out(
            host_shared(state.info.uniform_layout, base_info.flags, member.ty),
            member.offset,
            index,
            base_info.uniform_layout,
            handle,
        ),
        state.prev_struct_data,
        member.offset,
        index,
        handle,
    );
    let storage_layout = member_laid_out(
        host_shared(state.info.storage_layout, base_info.flags, member.ty),
        member.offset,
        index,
        base_info.storage_layout,
        handle,
    );
    let sized = base_info.flags.has(TypeFlags::SIZED);
    if !base_info.flags.has(MEMBER_REQUIRED) {
        Err(TypeErrorModel::InvalidData(member.ty))
    } else if overlaps && member.offset != 0 {
        Err(TypeErrorModel::MemberOverlap { index, offset: member.offset })
    } else if end > span {
        Err(
            TypeErrorModel::MemberOutOfBounds {
                index,
                offset: member.offset,
                size: base_size,
                span,
            },
        )
    } else if !sized && !(base_inner is Array && is_last) {
        Err(TypeErrorModel::InvalidDynamicArray(member_name(member), member.ty))
    } else {
        Ok(
            MemberWalk {
                info: TypeInfo {
                    flags: if overlaps {
                        TypeFlags { bits: flags.bits & !TypeFlags::HOST_SHAREABLE }
                    } else {
                        flags
                    },
                    uniform_layout: if sized {
                        uniform_layout
                    } else {
                        combined(
                            uniform_layout,
                            Err((handle, Disalignment::UnsizedMember { index })),
                        )
                    },
                    storage_layout,
                    push_constant_compatibility: if base_info.push_constant_compatibility
                        is Err {
                        base_info.push_constant_compatibility
                    } else {
                        state.info.push_constant_compatibility
                    },
                },
                min_offset: end as u32,
                prev_struct_data: match base_inner {
                    TypeInner::Struct { span: member_span, .. } => Some(
                        (member_span, member.offset),
                    ),
                    _ => None,
                },
            },
        )
    }
}

/// The walk over the first `upto` members of a struct: the state after
/// them, or the error of the first member that fails.
pub open spec fn members_walked(
    handle: Handle,
    members: Seq<StructMember>,
    span: u32,
    infos: Seq<TypeInfo>,
    gctx: &GlobalCtx,
    upto: nat,
) -> Result<MemberWalk, TypeErrorModel>
    decreases upto,
{
    if upto == 0 {
        Ok(MemberWalk::initial())
    } else {
        let index = (upto - 1) as int;
        let member = members[index];
        match members_walked(handle, members, span, infos, gctx, (upto - 1) as nat) {
            Err(e) => Err(e),
            Ok(state) => member_checked(
                state,
                handle,
                span,
                index as u32,
                member,
                upto == members.len(),
                infos[member.ty.index as int],
                gctx.sizes@[member.ty.index as int],
                gctx.types@[member.ty.index as int].inner,
            ),
        }
    }
}

/// The entry of a struct whose members gave `info`, once its span is held
/// against its alignment: where the span is no multiple of it, the struct
/// fits neither layout.
pub open spec fn span_checked(
    info: TypeInfo,
    handle: Handle,
    span: u32,
    alignment: Alignment,
) -> TypeInfo {
    if alignment.aligns(span) {
        info
    } else {
        TypeInfo {
            uniform_layout: Err((handle, Disalignment::StructSpan { span, alignment })),
            storage_layout: Err((handle, Disalignment::StructSpan { span, alignment })),
            ..info
        }
    }
}

/// What validating a struct gives: its entry, or the error of its first
/// member that fails. A struct without members is refused.
pub open spec fn struct_validity(
    handle: Handle,
    members: Seq<StructMember>,
    span: u32,
    infos: Seq<TypeInfo>,
    alignment: Alignment,
    gctx: &GlobalCtx,
) -> Result<TypeInfo, TypeErrorModel> {
    if members.len() == 0 {
        Err(TypeErrorModel::EmptyStruct)
    } else {
        match members_walked(handle, members, span, infos, gctx, members.len()) {
            Err(e) => Err(e),
            Ok(state) => Ok(span_checked(state.info, handle, span, alignment)),
        }
    }
}

/// Once a member has failed, the walk keeps its error however far it goes.
pub proof fn lemma_walk_keeps_error(
    handle: Handle,
    members: Seq<StructMember>,
    span: u32,
    infos: Seq<TypeInfo>,
    gctx: &GlobalCtx,
    failed: nat,
    upto: nat,
)
    requires
        failed <= upto,
        members_walked(handle, members, span, infos, gctx, failed) is Err,
    ensures
        members_walked(handle, members, span, infos, gctx, upto) == members_walked(
            handle,
            members,
            span,
            infos,
            gctx,
            failed,
        ),
    decreases upto,
{
    if failed < upto {
        lemma_walk_keeps_error(handle, members, span, infos, gctx, failed, (upto - 1) as nat);
    }
}

/// Holds the offset of a member against the alignment that the member
/// needs, and gathers that alignment in `accum`.
pub fn check_member_layout(
    accum: &mut LayoutCompatibility,
    member: &StructMember,
    member_index: u32,
    member_layout: LayoutCompatibility,
    parent_handle: Handle,
)
    requires
        layout_wf(*old(accum)),
        layout_wf(member_layout),
    ensures
        *final(accum) == member_laid_out(
            *old(accum),
            member.offset,
            member_index,
            member_layout,
            parent_handle,
        ),
        layout_wf(*final(accum)),
{
    let current = *accum;
    *accum = match (current, member_layout) {
        (Ok(cur_alignment), Ok(alignment)) => {
            let required = cur_alignment.max(alignment);
            if required.is_aligned(member.offset) {
                Ok(required)
            } else {
                Err(
                    (
                        parent_handle,
                        Disalignment::MemberOffset {
                            index: member_index,
                            offset: member.offset,
                            alignment: required,
                        },
                    ),
                )
            }
        },
        (Err(e), _) => Err(e),
        (_, Err(e)) => Err(e),
    };
}

/// Checks one member of a struct and moves the walk past it.
pub fn check_member(
    state: MemberWalk,
    handle: Handle,
    span: u32,
    index: u32,
    member: &StructMember,
    is_last: bool,
    base_info: TypeInfo,
    base_size: u32,
    base_inner: &TypeInner,
) -> (r: Result<MemberWalk, TypeError>)
    requires
        state.info.wf(),
        base_info.wf(),
    ensures
        result_model(r) == member_checked(
            state,
            handle,
            span,
            index,
            *member,
            is_last,
            base_info,
            base_size,
            *base_inner,
        ),
        r matches Ok(next) ==> next.info.wf(),
{
    let mut ti = state.info;
    if !flags_contains(base_info.flags, MEMBER_REQUIRED) {
        return Err(TypeError::InvalidData(member.ty));
    }
    if !flags_contains(base_info.flags, TypeFlags::HOST_SHAREABLE) {
        ti.uniform_layout = combine(
            ti.uniform_layout,
            Err((member.ty, Disalignment::NonHostShareable)),
        );
        ti.storage_layout = combine(
            ti.storage_layout,
            Err((member.ty, Disalignment::NonHostShareable)),
        );
    }
    ti.flags = flags_intersect(ti.flags, base_info.flags);

    if member.offset < state.min_offset {
        // A struct that starts a later member at offset zero does not
        // describe a layout: it is kept, but not shared with the host.
        if member.offset == 0 {
            ti.flags.set(TypeFlags::HOST_SHAREABLE, false);
        } else {
            return Err(TypeError::MemberOverlap { index, offset: member.offset });
        }
    }
    let end: u64 = member.offset as u64 + base_size as u64;
    if end > span as u64 {
        return Err(
            TypeError::MemberOutOfBounds { index, offset: member.offset, size: base_size, span },
        );
    }
    check_member_layout(
        &mut ti.uniform_layout,
        member,
        index,
        base_info.uniform_layout,
        handle,
    );
    check_member_layout(
        &mut ti.storage_layout,
        member,
        index,
        base_info.storage_layout,
        handle,
    );
    if base_info.push_constant_compatibility.is_err() {
        ti.push_constant_compatibility = base_info.push_constant_compatibility;
    }
    match state.prev_struct_data {
        Some((prev_span, prev_offset)) => {
            let min: u64 = Alignment::min_uniform().round_up(prev_span);
            if (member.offset as u64) < prev_offset as u64 + min {
                ti.uniform_layout = Err(
                    (
                        handle,
                        Disalignment::MemberOffsetAfterStruct {
                            index,
                            offset: member.offset,
                            expected: prev_offset as u64 + min,
                        },
                    ),
                );
            }
        },
        None => {},
    }
    let prev_struct_data = match base_inner {
        TypeInner::Struct { span: member_span, .. } => Some((*member_span, member.offset)),
        _ => None,
    };
    if !flags_contains(base_info.flags, TypeFlags::SIZED) {
        if !base_inner.is_array() || !is_last {
            let name = match &member.name {
                Some(name) => name.clone(),
                None => String::new(),
            };
            return Err(TypeError::InvalidDynamicArray(name, member.ty));
        }
        ti.uniform_layout = combine(
            ti.uniform_layout,
            Err((handle, Disalignment::UnsizedMember { index })),
        );
    }
    Ok(MemberWalk { info: ti, min_offset: end as u32, prev_struct_data })
}

} // verus!
