use vstd::prelude::*;

verus! {

/// The closed set of outcomes that an operation can report. Each kind has
/// one process exit code (see `ExitCode::code`).
#[derive(Clone, Copy, Debug, PartialEq, Eq, Structural)]
pub enum ExitCode {
    Success,
    DeviceNotFound,
    DeviceInaccessible,
    CreateDevice,
    DriverNotInstalled,
    DriverWrongVersion,
    DriverInaccessible,
    ServiceInaccessible,
    Format,
    BadMountPoint,
    BadSyntax,
    NotEnoughMemory,
    PartitionNotFound,
    WrongSyntax,
    NoFreeDriveLetters,
    Fatal,
}

impl ExitCode {
    /// The exit code handed to the shell for this kind.
    pub open spec fn spec_code(self) -> i32 {
        match self {
            ExitCode::Success => 0,
            ExitCode::DeviceNotFound => 1,
            ExitCode::DeviceInaccessible => 2,
            ExitCode::CreateDevice => 3,
            ExitCode::DriverNotInstalled => 4,
            ExitCode::DriverWrongVersion => 5,
            ExitCode::DriverInaccessible => 6,
            ExitCode::ServiceInaccessible => 7,
            ExitCode::Format => 8,
            ExitCode::BadMountPoint => 9,
            ExitCode::BadSyntax => 10,
            ExitCode::NotEnoughMemory => 11,
            ExitCode::PartitionNotFound => 12,
            ExitCode::WrongSyntax => 13,
            ExitCode::NoFreeDriveLetters => 14,
            ExitCode::Fatal => -1i32,
        }
    }

    pub fn code(&self) -> (r: i32)
        ensures
            r == self.spec_code(),
    {
        match self {
            ExitCode::Success => 0,
            ExitCode::DeviceNotFound => 1,
            ExitCode::DeviceInaccessible => 2,
            ExitCode::CreateDevice => 3,
            ExitCode::DriverNotInstalled => 4,
            ExitCode::DriverWrongVersion => 5,
            ExitCode::DriverInaccessible => 6,
            ExitCode::ServiceInaccessible => 7,
            ExitCode::Format => 8,
            ExitCode::BadMountPoint => 9,
            ExitCode::BadSyntax => 10,
            ExitCode::NotEnoughMemory => 11,
            ExitCode::PartitionNotFound => 12,
            ExitCode::WrongSyntax => 13,
            ExitCode::NoFreeDriveLetters => 14,
            ExitCode::Fatal => -1,
        }
    }

    /// A one-line description of the kind.
    pub open spec fn spec_text(self) -> Seq<char> {
        match self {
            ExitCode::Success => "operation completed"@,
            ExitCode::DeviceNotFound => "no such virtual disk device"@,
            ExitCode::DeviceInaccessible => "virtual disk device is in use or access is denied"@,
            ExitCode::CreateDevice => "the driver could not create the device"@,
            ExitCode::DriverNotInstalled => "the virtual disk driver is not installed"@,
            ExitCode::DriverWrongVersion => "the virtual disk driver has the wrong version"@,
            ExitCode::DriverInaccessible => "the virtual disk driver cannot be reached"@,
            ExitCode::ServiceInaccessible => "the helper service cannot be reached"@,
            ExitCode::Format => "the disk could not be formatted"@,
            ExitCode::BadMountPoint => "invalid mount point"@,
            ExitCode::BadSyntax => "invalid command line"@,
            ExitCode::NotEnoughMemory => "not enough memory"@,
            ExitCode::PartitionNotFound => "partition not found"@,
            ExitCode::WrongSyntax => "conflicting or missing options"@,
            ExitCode::NoFreeDriveLetters => "no free drive letters"@,
            ExitCode::Fatal => "unexpected error"@,
        }
    }

    pub fn text(&self) -> (r: &'static str)
        ensures
            r@ == self.spec_text(),
    {
        match self {
            ExitCode::Success => "operation completed",
            ExitCode::DeviceNotFound => "no such virtual disk device",
            ExitCode::DeviceInaccessible => "virtual disk device is in use or access is denied",
            ExitCode::CreateDevice => "the driver could not create the device",
            ExitCode::DriverNotInstalled => "the virtual disk driver is not installed",
            ExitCode::DriverWrongVersion => "the virtual disk driver has the wrong version",
            ExitCode::DriverInaccessible => "the virtual disk driver cannot be reached",
            ExitCode::ServiceInaccessible => "the helper service cannot be reached",
            ExitCode::Format => "the disk could not be formatted",
            ExitCode::BadMountPoint => "invalid mount point",
            ExitCode::BadSyntax => "invalid command line",
            ExitCode::NotEnoughMemory => "not enough memory",
            ExitCode::PartitionNotFound => "partition not found",
            ExitCode::WrongSyntax => "conflicting or missing options",
            ExitCode::NoFreeDriveLetters => "no free drive letters",
            ExitCode::Fatal => "unexpected error",
        }
    }
}

/// The kind that a raw driver status stands for: the kind whose exit code
/// it is, and `Fatal` for every status outside the taxonomy.
pub open spec fn spec_classify(raw: u32) -> ExitCode {
    if raw == 0 {
        ExitCode::Success
    } else if raw == 1 {
        ExitCode::DeviceNotFound
    } else if raw == 2 {
        ExitCode::DeviceInaccessible
    } else if raw == 3 {
        ExitCode::CreateDevice
    } else if raw == 4 {
        ExitCode::DriverNotInstalled
    } else if raw == 5 {
        ExitCode::DriverWrongVersion
    } else if raw == 6 {
        ExitCode::DriverInaccessible
    } else if raw == 7 {
        ExitCode::ServiceInaccessible
    } else if raw == 8 {
        ExitCode::Format
    } else if raw == 9 {
        ExitCode::BadMountPoint
    } else if raw == 10 {
        ExitCode::BadSyntax
    } else if raw == 11 {
        ExitCode::NotEnoughMemory
    } else if raw == 12 {
        ExitCode::PartitionNotFound
    } else if raw == 13 {
        ExitCode::WrongSyntax
    } else if raw == 14 {
        ExitCode::NoFreeDriveLetters
    } else {
        ExitCode::Fatal
    }
}

/// Maps a raw driver status to the taxonomy.
pub fn classify(raw: u32) -> (r: ExitCode)
    ensures
        r == spec_classify(raw),
        r != ExitCode::Fatal ==> r.spec_code() == raw,
{
    if raw == 0 {
        ExitCode::Success
    } else if raw == 1 {
        ExitCode::DeviceNotFound
    } else if raw == 2 {
        ExitCode::DeviceInaccessible
    } else if raw == 3 {
        ExitCode::CreateDevice
    } else if raw == 4 {
        ExitCode::DriverNotInstalled
    } else if raw == 5 {
        ExitCode::DriverWrongVersion
    } else if raw == 6 {
        ExitCode::DriverInaccessible
    } else if raw == 7 {
        ExitCode::ServiceInaccessible
    } else if raw == 8 {
        ExitCode::Format
    } else if raw == 9 {
        ExitCode::BadMountPoint
    } else if raw == 10 {
        ExitCode::BadSyntax
    } else if raw == 11 {
        ExitCode::NotEnoughMemory
    } else if raw == 12 {
        ExitCode::PartitionNotFound
    } else if raw == 13 {
        ExitCode::WrongSyntax
    } else if raw == 14 {
        ExitCode::NoFreeDriveLetters
    } else {
        ExitCode::Fatal
    }
}

impl ExitCode {
    /// The raw status by which the driver reports this kind: its exit code,
    /// and the all-ones word for `Fatal`.
    pub open spec fn spec_raw(self) -> u32 {
        if self == ExitCode::Fatal {
            0xffff_ffff
        } else {
            self.spec_code() as u32
        }
    }

    pub fn raw(&self) -> (r: u32)
        ensures
            r == self.spec_raw(),
    {
        if *self == ExitCode::Fatal {
            0xffff_ffff
        } else {
            self.code() as u32
        }
    }
}

/// Every kind is recovered from the raw status that reports it.
pub proof fn lemma_classify_raw(k: ExitCode)
    ensures
        spec_classify(k.spec_raw()) == k,
{
}

/// The outcome of one operation: its kind, a line of text, and whether the
/// driver flagged the failure as transient contention.
#[derive(Clone, Debug)]
pub struct StatusResult {
    pub code: ExitCode,
    pub message: String,
    pub transient: bool,
}

impl StatusResult {
    pub fn new(code: ExitCode, transient: bool) -> (r: StatusResult)
        ensures
            r.code == code,
            r.transient == transient,
            r.message@ == code.spec_text(),
    {
        StatusResult { code, message: String::from_str(code.text()), transient }
    }

    pub fn is_success(&self) -> (r: bool)
        ensures
            r == (self.code == ExitCode::Success),
    {
        self.code == ExitCode::Success
    }
}

/// Whether a failed acquisition is tried again: only transient contention,
/// and only on the first attempt.
pub open spec fn spec_should_retry(code: ExitCode, transient: bool, attempts: u32) -> bool {
    code == ExitCode::DeviceInaccessible && transient && attempts == 0
}

pub fn should_retry(code: ExitCode, transient: bool, attempts: u32) -> (r: bool)
    ensures
        r == spec_should_retry(code, transient, attempts),
{
    code == ExitCode::DeviceInaccessible && transient && attempts == 0
}

} // verus!
