use vstd::prelude::*;

verus! {

/// Every way the pipeline can fail. Each fallible stage owns exactly one
/// variant, plus the synthetic `NotFound` for a scan that exhausts all
/// volumes without a match. Any of these is fatal: the entry controller
/// reports it once and halts.
#[derive(Clone, Copy, Debug, PartialEq, Eq, Structural)]
pub enum FatalError {
    /// The logging subsystem could not be brought up.
    Init,
    /// The firmware could not enumerate the storage volumes.
    Enumeration,
    /// A capability (filesystem access or path identity) of one volume could
    /// not be opened.
    CapabilityOpen,
    /// A device path identity could not be rendered to text.
    PathRender,
    /// An existence check on a volume's filesystem failed.
    FilesystemQuery,
    /// The located file could not be read in full.
    FileRead,
    /// The full device path of the located file could not be built.
    PathBuild,
    /// The firmware could not materialize a loadable image from the source.
    Load,
    /// The loaded image could not be started.
    Start,
    /// No enumerated volume holds the target file.
    NotFound,
}

impl FatalError {
    /// The text of the single fatal report emitted for this error.
    pub open spec fn spec_message(self) -> Seq<char> {
        match self {
            FatalError::Init => "failed to initialize the logging subsystem"@,
            FatalError::Enumeration => "failed to enumerate storage volumes"@,
            FatalError::CapabilityOpen => "failed to open a capability of a volume"@,
            FatalError::PathRender => "failed to render a device path"@,
            FatalError::FilesystemQuery => "failed to query a volume for the target file"@,
            FatalError::FileRead => "failed to read the target file"@,
            FatalError::PathBuild => "failed to build the target file's device path"@,
            FatalError::Load => "failed to load the target image"@,
            FatalError::Start => "failed to start the target image"@,
            FatalError::NotFound => "didn't find systemd-bootx64.efi on any partition"@,
        }
    }

    /// Render this error for the one fatal log line.
    pub fn message(&self) -> (r: &'static str)
        ensures
            r@ == self.spec_message(),
    {
        match self {
            FatalError::Init => "failed to initialize the logging subsystem",
            FatalError::Enumeration => "failed to enumerate storage volumes",
            FatalError::CapabilityOpen => "failed to open a capability of a volume",
            FatalError::PathRender => "failed to render a device path",
            FatalError::FilesystemQuery => "failed to query a volume for the target file",
            FatalError::FileRead => "failed to read the target file",
            FatalError::PathBuild => "failed to build the target file's device path",
            FatalError::Load => "failed to load the target image",
            FatalError::Start => "failed to start the target image",
            FatalError::NotFound => "didn't find systemd-bootx64.efi on any partition",
        }
    }
}

} // verus!
