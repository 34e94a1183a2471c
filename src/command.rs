use vstd::prelude::*;
use crate::request::{
    build_disk_edit, build_disk_spec, resolve_target, spec_build_disk_spec, spec_opt_size,
    spec_resolve_target, DiskEdit, OperationRequest,
};
use crate::size::{parse_unit, spec_parse_unit};
use crate::status::ExitCode;

verus! {

/// The operation that the command line asks for.
#[derive(Clone, Copy, Debug, PartialEq, Eq, Structural)]
pub enum OperationMode {
    Create,
    Remove,
    Query,
    Edit,
}

/// Attach wins over detach (plain or forced), detach over list, list over
/// edit; with none of them there is no operation.
pub open spec fn spec_select_mode(
    attach: bool,
    detach: bool,
    force_detach: bool,
    list: bool,
    edit: bool,
) -> Option<OperationMode> {
    if attach {
        Some(OperationMode::Create)
    } else if detach || force_detach {
        Some(OperationMode::Remove)
    } else if list {
        Some(OperationMode::Query)
    } else if edit {
        Some(OperationMode::Edit)
    } else {
        None
    }
}

pub fn select_mode(attach: bool, detach: bool, force_detach: bool, list: bool, edit: bool) -> (r:
    Option<OperationMode>)
    ensures
        r == spec_select_mode(attach, detach, force_detach, list, edit),
{
    if attach {
        Some(OperationMode::Create)
    } else if detach || force_detach {
        Some(OperationMode::Remove)
    } else if list {
        Some(OperationMode::Query)
    } else if edit {
        Some(OperationMode::Edit)
    } else {
        None
    }
}

pub open spec fn chars_of(t: Option<&str>) -> Option<Seq<char>> {
    match t {
        Some(s) => Some(s@),
        None => None,
    }
}

/// The request that the command line's values describe, or the first
/// validation error: the unit number, then the disk type (required to
/// create), the size, and the choice of target.
pub open spec fn spec_build_request(
    mode: OperationMode,
    force: bool,
    type_text: Option<Seq<char>>,
    file: Option<String>,
    size_text: Option<Seq<char>>,
    unit_text: Option<Seq<char>>,
    mount_point: Option<String>,
) -> Result<OperationRequest, ExitCode> {
    let unit: Result<Option<u16>, ExitCode> = match unit_text {
        None => Ok(None),
        Some(t) => match spec_parse_unit(t) {
            Ok(u) => Ok(Some(u)),
            Err(e) => Err(e),
        },
    };
    match unit {
        Err(e) => Err(e),
        Ok(unit) => match mode {
            OperationMode::Create => match type_text {
                None => Err(ExitCode::BadSyntax),
                Some(t) => match spec_build_disk_spec(t, file, size_text, unit, mount_point) {
                    Ok(d) => Ok(OperationRequest::Create(d)),
                    Err(e) => Err(e),
                },
            },
            OperationMode::Remove => match spec_resolve_target(unit, mount_point) {
                Ok(t) => Ok(OperationRequest::Remove(t, force)),
                Err(e) => Err(e),
            },
            OperationMode::Query => match spec_resolve_target(unit, mount_point) {
                Ok(t) => Ok(OperationRequest::Query(Some(t))),
                Err(e) => Err(e),
            },
            OperationMode::Edit => match spec_opt_size(size_text) {
                Err(e) => Err(e),
                Ok(size) => match spec_resolve_target(unit, mount_point) {
                    Ok(t) => Ok(OperationRequest::Edit(t, DiskEdit { size })),
                    Err(e) => Err(e),
                },
            },
        },
    }
}

/// Builds the request for `mode` from the values given on the command line;
/// `force` applies to a removal only.
pub fn build_request(
    mode: OperationMode,
    force: bool,
    type_text: Option<&str>,
    file: Option<String>,
    size_text: Option<&str>,
    unit_text: Option<&str>,
    mount_point: Option<String>,
) -> (r: Result<OperationRequest, ExitCode>)
    ensures
        r == spec_build_request(
            mode,
            force,
            chars_of(type_text),
            file,
            chars_of(size_text),
            chars_of(unit_text),
            mount_point,
        ),
        r matches Ok(req) ==> req.wf(),
{
    let unit = match unit_text {
        None => None,
        Some(t) => match parse_unit(t) {
            Ok(u) => Some(u),
            Err(e) => return Err(e),
        },
    };
    match mode {
        OperationMode::Create => match type_text {
            None => Err(ExitCode::BadSyntax),
            Some(t) => match build_disk_spec(t, file, size_text, unit, mount_point) {
                Ok(d) => Ok(OperationRequest::Create(d)),
                Err(e) => Err(e),
            },
        },
        OperationMode::Remove => match resolve_target(unit, mount_point) {
            Ok(t) => Ok(OperationRequest::Remove(t, force)),
            Err(e) => Err(e),
        },
        OperationMode::Query => match resolve_target(unit, mount_point) {
            Ok(t) => Ok(OperationRequest::Query(Some(t))),
            Err(e) => Err(e),
        },
        OperationMode::Edit => match build_disk_edit(size_text) {
            Err(e) => Err(e),
            Ok(edit) => match resolve_target(unit, mount_point) {
                Ok(t) => Ok(OperationRequest::Edit(t, edit)),
                Err(e) => Err(e),
            },
        },
    }
}

/// For a removal, a query or an edit whose values are otherwise well formed,
/// the request is refused, with `BadSyntax`, exactly when a unit number and a
/// mount point are both given or both missing.
pub proof fn lemma_target_choice(
    mode: OperationMode,
    force: bool,
    type_text: Option<Seq<char>>,
    file: Option<String>,
    size_text: Option<Seq<char>>,
    unit_text: Option<Seq<char>>,
    mount_point: Option<String>,
)
    requires
        mode != OperationMode::Create,
        unit_text matches Some(t) ==> spec_parse_unit(t) is Ok,
        spec_opt_size(size_text) is Ok,
    ensures
        spec_build_request(mode, force, type_text, file, size_text, unit_text, mount_point) is Err
            <==> (unit_text is Some <==> mount_point is Some),
        spec_build_request(mode, force, type_text, file, size_text, unit_text, mount_point) is Err
            ==> spec_build_request(mode, force, type_text, file, size_text, unit_text, mount_point)
            == Err::<OperationRequest, ExitCode>(ExitCode::BadSyntax),
{
}

} // verus!
