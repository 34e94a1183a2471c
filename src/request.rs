use vstd::prelude::*;
use crate::size::{parse_size, spec_parse_size};
use crate::status::ExitCode;

verus! {

/// What backs a virtual disk.
#[derive(Clone, Copy, Debug, PartialEq, Eq, Structural)]
pub enum DiskType {
    /// An image file.
    File,
    /// Virtual memory: a RAM disk.
    Vm,
    /// A pluggable data source reached through a proxy.
    Proxy,
}

pub open spec fn spec_disk_type(s: Seq<char>) -> Result<DiskType, ExitCode> {
    if s == "file"@ {
        Ok(DiskType::File)
    } else if s == "vm"@ {
        Ok(DiskType::Vm)
    } else if s == "proxy"@ {
        Ok(DiskType::Proxy)
    } else {
        Err(ExitCode::BadSyntax)
    }
}

/// Reads a disk type name: `file`, `vm` or `proxy`.
pub fn parse_disk_type(s: &str) -> (r: Result<DiskType, ExitCode>)
    ensures
        r == spec_disk_type(s@),
{
    let owned = String::from_str(s);
    if owned == String::from_str("file") {
        Ok(DiskType::File)
    } else if owned == String::from_str("vm") {
        Ok(DiskType::Vm)
    } else if owned == String::from_str("proxy") {
        Ok(DiskType::Proxy)
    } else {
        Err(ExitCode::BadSyntax)
    }
}

/// One virtual disk instance, named by its unit number or by its mount point.
#[derive(Clone, Debug, PartialEq, Eq)]
pub enum DeviceTarget {
    Unit(u16),
    MountPoint(String),
}

/// Exactly one of a unit number and a mount point names a target; both or
/// neither is `BadSyntax`.
pub open spec fn spec_resolve_target(unit: Option<u16>, mount: Option<String>) -> Result<
    DeviceTarget,
    ExitCode,
> {
    match (unit, mount) {
        (Some(u), None) => Ok(DeviceTarget::Unit(u)),
        (None, Some(m)) => Ok(DeviceTarget::MountPoint(m)),
        _ => Err(ExitCode::BadSyntax),
    }
}

pub fn resolve_target(unit: Option<u16>, mount: Option<String>) -> (r: Result<DeviceTarget, ExitCode>)
    ensures
        r == spec_resolve_target(unit, mount),
{
    match (unit, mount) {
        (Some(u), None) => Ok(DeviceTarget::Unit(u)),
        (None, Some(m)) => Ok(DeviceTarget::MountPoint(m)),
        _ => Err(ExitCode::BadSyntax),
    }
}

/// The properties of a disk to create.
#[derive(Clone, Debug, PartialEq, Eq)]
pub struct DiskSpec {
    pub disk_type: DiskType,
    pub file: Option<String>,
    pub size: Option<u64>,
    pub unit: Option<u16>,
    pub mount_point: Option<String>,
}

impl DiskSpec {
    /// A size, where given, is positive; a file-backed disk names its image
    /// file (a disk held in memory is of type `Vm`).
    pub open spec fn wf(self) -> bool {
        &&& (self.size matches Some(v) ==> v > 0)
        &&& (self.disk_type == DiskType::File ==> self.file is Some)
    }
}

/// The properties that an edit may change.
#[derive(Clone, Copy, Debug, PartialEq, Eq, Structural)]
pub struct DiskEdit {
    pub size: Option<u64>,
}

impl DiskEdit {
    pub open spec fn wf(self) -> bool {
        self.size matches Some(v) ==> v > 0
    }
}

pub open spec fn spec_opt_size(text: Option<Seq<char>>) -> Result<Option<u64>, ExitCode> {
    match text {
        None => Ok(None),
        Some(t) => match spec_parse_size(t) {
            Ok(v) => Ok(Some(v)),
            Err(e) => Err(e),
        },
    }
}

fn parse_opt_size(text: Option<&str>) -> (r: Result<Option<u64>, ExitCode>)
    ensures
        r == spec_opt_size(
            match text {
                Some(t) => Some(t@),
                None => None,
            },
        ),
{
    match text {
        None => Ok(None),
        Some(t) => match parse_size(t) {
            Ok(v) => Ok(Some(v)),
            Err(e) => Err(e),
        },
    }
}

/// Builds the properties of a new disk from their written forms.
pub open spec fn spec_build_disk_spec(
    type_text: Seq<char>,
    file: Option<String>,
    size_text: Option<Seq<char>>,
    unit: Option<u16>,
    mount_point: Option<String>,
) -> Result<DiskSpec, ExitCode> {
    match spec_disk_type(type_text) {
        Err(e) => Err(e),
        Ok(t) => match spec_opt_size(size_text) {
            Err(e) => Err(e),
            Ok(size) => if t == DiskType::File && file is None {
                Err(ExitCode::BadSyntax)
            } else {
                Ok(DiskSpec { disk_type: t, file, size, unit, mount_point })
            },
        },
    }
}

pub fn build_disk_spec(
    type_text: &str,
    file: Option<String>,
    size_text: Option<&str>,
    unit: Option<u16>,
    mount_point: Option<String>,
) -> (r: Result<DiskSpec, ExitCode>)
    ensures
        r == spec_build_disk_spec(
            type_text@,
            file,
            match size_text {
                Some(t) => Some(t@),
                None => None,
            },
            unit,
            mount_point,
        ),
        r matches Ok(d) ==> d.wf(),
{
    let t = match parse_disk_type(type_text) {
        Ok(t) => t,
        Err(e) => return Err(e),
    };
    let size = match parse_opt_size(size_text) {
        Ok(s) => s,
        Err(e) => return Err(e),
    };
    if t == DiskType::File && file.is_none() {
        return Err(ExitCode::BadSyntax);
    }
    Ok(DiskSpec { disk_type: t, file, size, unit, mount_point })
}

pub fn build_disk_edit(size_text: Option<&str>) -> (r: Result<DiskEdit, ExitCode>)
    ensures
        r == (match spec_opt_size(
            match size_text {
                Some(t) => Some(t@),
                None => None,
            },
        ) {
            Ok(size) => Ok(DiskEdit { size }),
            Err(e) => Err(e),
        }),
        r matches Ok(d) ==> d.wf(),
{
    match parse_opt_size(size_text) {
        Ok(size) => Ok(DiskEdit { size }),
        Err(e) => Err(e),
    }
}

/// One operation asked of the driver.
#[derive(Clone, Debug, PartialEq, Eq)]
pub enum OperationRequest {
    Create(DiskSpec),
    Remove(DeviceTarget, bool),
    Query(Option<DeviceTarget>),
    Edit(DeviceTarget, DiskEdit),
}

impl OperationRequest {
    pub open spec fn wf(self) -> bool {
        match self {
            OperationRequest::Create(d) => d.wf(),
            OperationRequest::Edit(_, e) => e.wf(),
            _ => true,
        }
    }
}

} // verus!
