use vstd::prelude::*;
use vstd::bytes::{
    spec_u16_to_le_bytes, spec_u32_from_le_bytes, spec_u32_to_le_bytes, spec_u64_to_le_bytes,
    u16_to_le_bytes, u32_from_le_bytes, u32_to_le_bytes, u64_to_le_bytes,
    lemma_auto_spec_u32_to_from_le_bytes,
};
use vstd::slice::{slice_subrange, slice_to_vec};
use vstd::utf8::encode_utf8;
use crate::request::{DeviceTarget, DiskEdit, DiskSpec, DiskType, OperationRequest};
use crate::status::{classify, spec_classify, ExitCode, StatusResult};

verus! {

// A request is one frame:
//   byte 0       operation: 1 create, 2 remove, 3 query, 4 edit
//   byte 1       flags: 1 force, 2 unit, 4 size, 8 mount point, 16 file, 32 type
//   byte 2       disk type: 0 none, 1 file, 2 vm, 3 proxy
//   bytes 3..5   unit number, little-endian (0 where absent)
//   bytes 5..13  size in bytes, little-endian (0 where absent)
//   then the mount point and the image file, each as a little-endian
//   64-bit byte count followed by its UTF-8 bytes (a count of 0 where absent).
//
// A response is a little-endian 32-bit driver status, optionally followed by
// one byte whose lowest bit marks a failure as transient contention.

pub const OP_CREATE: u8 = 1;
pub const OP_REMOVE: u8 = 2;
pub const OP_QUERY: u8 = 3;
pub const OP_EDIT: u8 = 4;

pub const FLAG_FORCE: u8 = 1;

pub open spec fn type_byte(t: Option<DiskType>) -> u8 {
    match t {
        None => 0,
        Some(DiskType::File) => 1,
        Some(DiskType::Vm) => 2,
        Some(DiskType::Proxy) => 3,
    }
}

pub open spec fn bit(b: bool, v: u8) -> u8 {
    if b {
        v
    } else {
        0
    }
}

pub open spec fn flags_byte(
    force: bool,
    unit: bool,
    size: bool,
    mount: bool,
    file: bool,
    ty: bool,
) -> u8 {
    (bit(force, 1) + bit(unit, 2) + bit(size, 4) + bit(mount, 8) + bit(file, 16) + bit(ty, 32)) as u8
}

pub open spec fn text_field(t: Option<Seq<char>>) -> Seq<u8> {
    match t {
        Some(s) => spec_u64_to_le_bytes(encode_utf8(s).len() as u64) + encode_utf8(s),
        None => spec_u64_to_le_bytes(0),
    }
}

pub open spec fn frame(
    op: u8,
    force: bool,
    ty: Option<DiskType>,
    unit: Option<u16>,
    size: Option<u64>,
    mount: Option<Seq<char>>,
    file: Option<Seq<char>>,
) -> Seq<u8> {
    seq![
        op,
        flags_byte(force, unit is Some, size is Some, mount is Some, file is Some, ty is Some),
        type_byte(ty),
    ] + spec_u16_to_le_bytes(
        match unit {
            Some(u) => u,
            None => 0,
        },
    ) + spec_u64_to_le_bytes(
        match size {
            Some(s) => s,
            None => 0,
        },
    ) + text_field(mount) + text_field(file)
}

pub open spec fn opt_chars(s: Option<String>) -> Option<Seq<char>> {
    match s {
        Some(t) => Some(t@),
        None => None,
    }
}

pub open spec fn target_unit(t: Option<DeviceTarget>) -> Option<u16> {
    match t {
        Some(DeviceTarget::Unit(u)) => Some(u),
        _ => None,
    }
}

pub open spec fn target_mount(t: Option<DeviceTarget>) -> Option<Seq<char>> {
    match t {
        Some(DeviceTarget::MountPoint(m)) => Some(m@),
        _ => None,
    }
}

/// The frame that carries a request to the driver.
pub open spec fn request_bytes(req: OperationRequest) -> Seq<u8> {
    match req {
        OperationRequest::Create(d) => frame(
            OP_CREATE,
            false,
            Some(d.disk_type),
            d.unit,
            d.size,
            opt_chars(d.mount_point),
            opt_chars(d.file),
        ),
        OperationRequest::Remove(t, force) => frame(
            OP_REMOVE,
            force,
            None,
            target_unit(Some(t)),
            None,
            target_mount(Some(t)),
            None,
        ),
        OperationRequest::Query(t) => frame(
            OP_QUERY,
            false,
            None,
            target_unit(t),
            None,
            target_mount(t),
            None,
        ),
        OperationRequest::Edit(t, e) => frame(
            OP_EDIT,
            false,
            None,
            target_unit(Some(t)),
            e.size,
            target_mount(Some(t)),
            None,
        ),
    }
}

fn push_text(out: &mut Vec<u8>, t: Option<&String>)
    ensures
        final(out)@ == old(out)@ + text_field(
            match t {
                Some(s) => Some(s@),
                None => None,
            },
        ),
{
    match t {
        None => {
            let mut count = u64_to_le_bytes(0);
            out.append(&mut count);
        },
        Some(s) => {
            let b = s.as_str().as_bytes();
            let mut count = u64_to_le_bytes(b.len() as u64);
            let mut body = slice_to_vec(b);
            out.append(&mut count);
            out.append(&mut body);
        },
    }
}

fn encode_flags(force: bool, unit: bool, size: bool, mount: bool, file: bool, ty: bool) -> (r: u8)
    ensures
        r == flags_byte(force, unit, size, mount, file, ty),
{
    let a: u8 = if force { 1 } else { 0 };
    let b: u8 = if unit { 2 } else { 0 };
    let c: u8 = if size { 4 } else { 0 };
    let d: u8 = if mount { 8 } else { 0 };
    let e: u8 = if file { 16 } else { 0 };
    let f: u8 = if ty { 32 } else { 0 };
    a + b + c + d + e + f
}

fn encode_type(t: Option<DiskType>) -> (r: u8)
    ensures
        r == type_byte(t),
{
    match t {
        None => 0,
        Some(DiskType::File) => 1,
        Some(DiskType::Vm) => 2,
        Some(DiskType::Proxy) => 3,
    }
}

fn encode_frame(
    op: u8,
    force: bool,
    ty: Option<DiskType>,
    unit: Option<u16>,
    size: Option<u64>,
    mount: Option<&String>,
    file: Option<&String>,
) -> (r: Vec<u8>)
    ensures
        r@ == frame(
            op,
            force,
            ty,
            unit,
            size,
            match mount {
                Some(s) => Some(s@),
                None => None,
            },
            match file {
                Some(s) => Some(s@),
                None => None,
            },
        ),
{
    let flags = encode_flags(
        force,
        unit.is_some(),
        size.is_some(),
        mount.is_some(),
        file.is_some(),
        ty.is_some(),
    );
    let tb = encode_type(ty);
    let mut out: Vec<u8> = Vec::new();
    out.push(op);
    out.push(flags);
    out.push(tb);
    assert(out@ =~= seq![op, flags, tb]);
    let mut u = u16_to_le_bytes(
        match unit {
            Some(u) => u,
            None => 0,
        },
    );
    out.append(&mut u);
    let mut s = u64_to_le_bytes(
        match size {
            Some(s) => s,
            None => 0,
        },
    );
    out.append(&mut s);
    push_text(&mut out, mount);
    push_text(&mut out, file);
    out
}

fn opt_ref(s: &Option<String>) -> (r: Option<&String>)
    ensures
        match r {
            Some(t) => *s == Some(*t),
            None => *s is None,
        },
{
    match s {
        Some(t) => Some(t),
        None => None,
    }
}

/// Encodes the creation of a disk; properties that are not well formed (a
/// zero size, a file-backed disk without its file) are `BadSyntax`.
pub fn encode_create(spec: &DiskSpec) -> (r: Result<Vec<u8>, ExitCode>)
    ensures
        spec.wf() ==> (r matches Ok(b) && b@ == request_bytes(OperationRequest::Create(*spec))),
        !spec.wf() ==> r == Err::<Vec<u8>, ExitCode>(ExitCode::BadSyntax),
{
    let size_ok = match spec.size {
        Some(v) => v > 0,
        None => true,
    };
    if !size_ok || (spec.disk_type == DiskType::File && spec.file.is_none()) {
        return Err(ExitCode::BadSyntax);
    }
    Ok(encode_frame(
        OP_CREATE,
        false,
        Some(spec.disk_type),
        spec.unit,
        spec.size,
        opt_ref(&spec.mount_point),
        opt_ref(&spec.file),
    ))
}

fn target_parts(t: Option<&DeviceTarget>) -> (r: (Option<u16>, Option<&String>))
    ensures
        r.0 == target_unit(
            match t {
                Some(x) => Some(*x),
                None => None,
            },
        ),
        (match r.1 {
            Some(s) => Some(s@),
            None => None,
        }) == target_mount(
            match t {
                Some(x) => Some(*x),
                None => None,
            },
        ),
{
    match t {
        Some(DeviceTarget::Unit(u)) => (Some(*u), None),
        Some(DeviceTarget::MountPoint(m)) => (None, Some(m)),
        None => (None, None),
    }
}

/// Encodes the removal of a disk; `force` asks the driver to remove it even
/// while it is in use.
pub fn encode_remove(target: &DeviceTarget, force: bool) -> (r: Vec<u8>)
    ensures
        r@ == request_bytes(OperationRequest::Remove(*target, force)),
{
    let (unit, mount) = target_parts(Some(target));
    encode_frame(OP_REMOVE, force, None, unit, None, mount, None)
}

/// Encodes a query, of one disk or, with no target, of all of them.
pub fn encode_query(target: Option<&DeviceTarget>) -> (r: Vec<u8>)
    ensures
        r@ == request_bytes(
            OperationRequest::Query(
                match target {
                    Some(x) => Some(*x),
                    None => None,
                },
            ),
        ),
{
    let (unit, mount) = target_parts(target);
    encode_frame(OP_QUERY, false, None, unit, None, mount, None)
}

/// Encodes a change to the properties of a disk; a zero size is `BadSyntax`.
pub fn encode_edit(target: &DeviceTarget, edit: &DiskEdit) -> (r: Result<Vec<u8>, ExitCode>)
    ensures
        edit.wf() ==> (r matches Ok(b) && b@ == request_bytes(OperationRequest::Edit(*target, *edit))),
        !edit.wf() ==> r == Err::<Vec<u8>, ExitCode>(ExitCode::BadSyntax),
{
    if let Some(0) = edit.size {
        return Err(ExitCode::BadSyntax);
    }
    let (unit, mount) = target_parts(Some(target));
    Ok(encode_frame(OP_EDIT, false, None, unit, edit.size, mount, None))
}

/// Encodes any request; one that is not well formed is `BadSyntax`.
pub fn encode(req: &OperationRequest) -> (r: Result<Vec<u8>, ExitCode>)
    ensures
        req.wf() ==> (r matches Ok(b) && b@ == request_bytes(*req)),
        !req.wf() ==> r == Err::<Vec<u8>, ExitCode>(ExitCode::BadSyntax),
{
    match req {
        OperationRequest::Create(d) => encode_create(d),
        OperationRequest::Remove(t, force) => Ok(encode_remove(t, *force)),
        OperationRequest::Query(t) => match t {
            Some(x) => Ok(encode_query(Some(x))),
            None => Ok(encode_query(None)),
        },
        OperationRequest::Edit(t, e) => encode_edit(t, e),
    }
}

/// The kind of a driver response: the classified status, and `Fatal` for a
/// response too short to hold one.
pub open spec fn response_code(b: Seq<u8>) -> ExitCode {
    if b.len() >= 4 {
        spec_classify(spec_u32_from_le_bytes(b.subrange(0, 4)))
    } else {
        ExitCode::Fatal
    }
}

pub open spec fn response_transient(b: Seq<u8>) -> bool {
    b.len() >= 5 && b[4] % 2 == 1
}

/// Reads a driver response.
pub fn decode(resp: &[u8]) -> (r: StatusResult)
    ensures
        r.code == response_code(resp@),
        r.transient == response_transient(resp@),
        r.message@ == r.code.spec_text(),
{
    if resp.len() < 4 {
        return StatusResult::new(ExitCode::Fatal, resp.len() >= 5 && resp[4] % 2 == 1);
    }
    let raw = u32_from_le_bytes(slice_subrange(resp, 0, 4));
    let transient = resp.len() >= 5 && resp[4] % 2 == 1;
    StatusResult::new(classify(raw), transient)
}

/// The response by which a driver reports `code`.
pub open spec fn response_bytes(code: ExitCode, transient: bool) -> Seq<u8> {
    spec_u32_to_le_bytes(code.spec_raw()) + seq![if transient { 1u8 } else { 0u8 }]
}

/// Writes the response by which a driver reports `code`.
pub fn encode_response(code: ExitCode, transient: bool) -> (r: Vec<u8>)
    ensures
        r@ == response_bytes(code, transient),
{
    let mut out = u32_to_le_bytes(code.raw());
    out.push(if transient { 1u8 } else { 0u8 });
    out
}

/// Decoding a response gives back the kind and the contention mark that it
/// was written with.
pub proof fn lemma_response_round_trip(code: ExitCode, transient: bool)
    ensures
        response_code(response_bytes(code, transient)) == code,
        response_transient(response_bytes(code, transient)) == transient,
{
    lemma_auto_spec_u32_to_from_le_bytes();
    let b = response_bytes(code, transient);
    let head = spec_u32_to_le_bytes(code.spec_raw());
    assert(b.subrange(0, 4) =~= head);
    assert(b[4] == if transient { 1u8 } else { 0u8 });
    crate::status::lemma_classify_raw(code);
}

/// A removal request carries the force mark exactly when it asks to force.
pub proof fn lemma_remove_force_flag(target: DeviceTarget, force: bool)
    ensures
        request_bytes(OperationRequest::Remove(target, force))[1] % 2 == 1 <==> force,
{
    let b = request_bytes(OperationRequest::Remove(target, force));
    let flags = flags_byte(
        force,
        target_unit(Some(target)) is Some,
        false,
        target_mount(Some(target)) is Some,
        false,
        false,
    );
    assert(b[1] == flags);
}

} // verus!
