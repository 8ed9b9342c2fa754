use vstd::prelude::*;

verus! {

/// `std::io::Error` is carried through the library as an opaque value.
#[verifier::external_type_specification]
#[verifier::external_body]
pub struct ExIoError(std::io::Error);

/// The step of pseudo terminal allocation that failed.
#[derive(Clone, Copy, Debug, PartialEq, Eq, Structural)]
pub enum AllocateStage {
    Open,
    Grant,
    Unlock,
    GetChildName,
    OpenChild,
}

/// Failure to allocate a pseudo terminal, tagged with the failing step.
#[derive(Debug)]
pub enum AllocateError {
    Open(std::io::Error),
    Grant(std::io::Error),
    Unlock(std::io::Error),
    GetChildName(std::io::Error),
    OpenChild(std::io::Error),
}

impl AllocateStage {
    /// The text that opens the message of an error raised at this step.
    pub open spec fn spec_description(self) -> Seq<char> {
        match self {
            AllocateStage::Open => "failed to open new pseudo terminal"@,
            AllocateStage::Grant => "failed to grant permissions on child terminal device"@,
            AllocateStage::Unlock => "failed to unlock child terminal device"@,
            AllocateStage::GetChildName => "failed to get name of child terminal device"@,
            AllocateStage::OpenChild => "failed to open child terminal device"@,
        }
    }

    pub fn description(self) -> (r: &'static str)
        ensures
            r@ == self.spec_description(),
    {
        match self {
            AllocateStage::Open => "failed to open new pseudo terminal",
            AllocateStage::Grant => "failed to grant permissions on child terminal device",
            AllocateStage::Unlock => "failed to unlock child terminal device",
            AllocateStage::GetChildName => "failed to get name of child terminal device",
            AllocateStage::OpenChild => "failed to open child terminal device",
        }
    }

    /// Wrap the I/O error of a failed step into the error for that step.
    pub fn fail(self, cause: std::io::Error) -> (r: AllocateError)
        ensures
            r.spec_stage() == self,
            r.spec_cause() == cause,
    {
        match self {
            AllocateStage::Open => AllocateError::Open(cause),
            AllocateStage::Grant => AllocateError::Grant(cause),
            AllocateStage::Unlock => AllocateError::Unlock(cause),
            AllocateStage::GetChildName => AllocateError::GetChildName(cause),
            AllocateStage::OpenChild => AllocateError::OpenChild(cause),
        }
    }
}

impl AllocateError {
    pub open spec fn spec_stage(&self) -> AllocateStage {
        match self {
            AllocateError::Open(_) => AllocateStage::Open,
            AllocateError::Grant(_) => AllocateStage::Grant,
            AllocateError::Unlock(_) => AllocateStage::Unlock,
            AllocateError::GetChildName(_) => AllocateStage::GetChildName,
            AllocateError::OpenChild(_) => AllocateStage::OpenChild,
        }
    }

    pub open spec fn spec_cause(&self) -> std::io::Error {
        match self {
            AllocateError::Open(e) => *e,
            AllocateError::Grant(e) => *e,
            AllocateError::Unlock(e) => *e,
            AllocateError::GetChildName(e) => *e,
            AllocateError::OpenChild(e) => *e,
        }
    }

    pub fn stage(&self) -> (r: AllocateStage)
        ensures
            r == self.spec_stage(),
    {
        match self {
            AllocateError::Open(_) => AllocateStage::Open,
            AllocateError::Grant(_) => AllocateStage::Grant,
            AllocateError::Unlock(_) => AllocateStage::Unlock,
            AllocateError::GetChildName(_) => AllocateStage::GetChildName,
            AllocateError::OpenChild(_) => AllocateStage::OpenChild,
        }
    }

    pub fn cause(&self) -> (r: &std::io::Error)
        ensures
            *r == self.spec_cause(),
    {
        match self {
            AllocateError::Open(e) => e,
            AllocateError::Grant(e) => e,
            AllocateError::Unlock(e) => e,
            AllocateError::GetChildName(e) => e,
            AllocateError::OpenChild(e) => e,
        }
    }

    /// The message for this error, given the text of its cause.
    pub fn describe(&self, detail: &str) -> (r: String)
        ensures
            r@ == self.spec_stage().spec_description() + ": "@ + detail@,
    {
        let mut text = String::from_str(self.stage().description());
        text.append(": ");
        text.append(detail);
        text
    }

    /// The message for this error: what failed, then the cause as `Display`
    /// writes it.
    pub fn message(&self) -> (r: String)
        ensures
            exists|detail: String|
                vstd::string::to_string_from_display_ensures::<std::io::Error>(&self.spec_cause(), detail)
                    && r@ == self.spec_stage().spec_description() + ": "@ + detail@,
    {
        let detail = self.cause().to_string();
        self.describe(detail.as_str())
    }
}

/// The step of spawning a child process on a pseudo terminal that failed.
#[derive(Clone, Copy, Debug, PartialEq, Eq, Structural)]
pub enum SpawnStage {
    DuplicateStdio,
    CreateSession,
    SetControllingTerminal,
    Spawn,
    WrapAsyncFd,
}

/// Failure to spawn a child process on a pseudo terminal, tagged with the failing step.
#[derive(Debug)]
pub enum SpawnError {
    DuplicateStdio(std::io::Error),
    CreateSession(std::io::Error),
    SetControllingTerminal(std::io::Error),
    Spawn(std::io::Error),
    WrapAsyncFd(std::io::Error),
}

impl SpawnStage {
    /// The text that opens the message of an error raised at this step.
    pub open spec fn spec_description(self) -> Seq<char> {
        match self {
            SpawnStage::DuplicateStdio => "failed to duplicate file descriptor for standard I/O stream"@,
            SpawnStage::CreateSession => "failed to create new process group"@,
            SpawnStage::SetControllingTerminal => "failed to set controlling terminal for new process group"@,
            SpawnStage::Spawn => "failed to spawn child process"@,
            SpawnStage::WrapAsyncFd => "failed to wrap pseudo terminal file descriptor for use with tokio"@,
        }
    }

    pub fn description(self) -> (r: &'static str)
        ensures
            r@ == self.spec_description(),
    {
        match self {
            SpawnStage::DuplicateStdio => "failed to duplicate file descriptor for standard I/O stream",
            SpawnStage::CreateSession => "failed to create new process group",
            SpawnStage::SetControllingTerminal => "failed to set controlling terminal for new process group",
            SpawnStage::Spawn => "failed to spawn child process",
            SpawnStage::WrapAsyncFd => "failed to wrap pseudo terminal file descriptor for use with tokio",
        }
    }

    /// Wrap the I/O error of a failed step into the error for that step.
    pub fn fail(self, cause: std::io::Error) -> (r: SpawnError)
        ensures
            r.spec_stage() == self,
            r.spec_cause() == cause,
    {
        match self {
            SpawnStage::DuplicateStdio => SpawnError::DuplicateStdio(cause),
            SpawnStage::CreateSession => SpawnError::CreateSession(cause),
            SpawnStage::SetControllingTerminal => SpawnError::SetControllingTerminal(cause),
            SpawnStage::Spawn => SpawnError::Spawn(cause),
            SpawnStage::WrapAsyncFd => SpawnError::WrapAsyncFd(cause),
        }
    }
}

impl SpawnError {
    pub open spec fn spec_stage(&self) -> SpawnStage {
        match self {
            SpawnError::DuplicateStdio(_) => SpawnStage::DuplicateStdio,
            SpawnError::CreateSession(_) => SpawnStage::CreateSession,
            SpawnError::SetControllingTerminal(_) => SpawnStage::SetControllingTerminal,
            SpawnError::Spawn(_) => SpawnStage::Spawn,
            SpawnError::WrapAsyncFd(_) => SpawnStage::WrapAsyncFd,
        }
    }

    pub open spec fn spec_cause(&self) -> std::io::Error {
        match self {
            SpawnError::DuplicateStdio(e) => *e,
            SpawnError::CreateSession(e) => *e,
            SpawnError::SetControllingTerminal(e) => *e,
            SpawnError::Spawn(e) => *e,
            SpawnError::WrapAsyncFd(e) => *e,
        }
    }

    pub fn stage(&self) -> (r: SpawnStage)
        ensures
            r == self.spec_stage(),
    {
        match self {
            SpawnError::DuplicateStdio(_) => SpawnStage::DuplicateStdio,
            SpawnError::CreateSession(_) => SpawnStage::CreateSession,
            SpawnError::SetControllingTerminal(_) => SpawnStage::SetControllingTerminal,
            SpawnError::Spawn(_) => SpawnStage::Spawn,
            SpawnError::WrapAsyncFd(_) => SpawnStage::WrapAsyncFd,
        }
    }

    pub fn cause(&self) -> (r: &std::io::Error)
        ensures
            *r == self.spec_cause(),
    {
        match self {
            SpawnError::DuplicateStdio(e) => e,
            SpawnError::CreateSession(e) => e,
            SpawnError::SetControllingTerminal(e) => e,
            SpawnError::Spawn(e) => e,
            SpawnError::WrapAsyncFd(e) => e,
        }
    }

    /// The message for this error, given the text of its cause.
    pub fn describe(&self, detail: &str) -> (r: String)
        ensures
            r@ == self.spec_stage().spec_description() + ": "@ + detail@,
    {
        let mut text = String::from_str(self.stage().description());
        text.append(": ");
        text.append(detail);
        text
    }

    /// The message for this error: what failed, then the cause as `Display`
    /// writes it.
    pub fn message(&self) -> (r: String)
        ensures
            exists|detail: String|
                vstd::string::to_string_from_display_ensures::<std::io::Error>(&self.spec_cause(), detail)
                    && r@ == self.spec_stage().spec_description() + ": "@ + detail@,
    {
        let detail = self.cause().to_string();
        self.describe(detail.as_str())
    }
}

/// Failure to resize a pseudo terminal.
#[derive(Debug)]
pub struct ResizeError(pub std::io::Error);

impl ResizeError {
    /// The text that opens the message of a resize error.
    pub open spec fn spec_description() -> Seq<char> {
        "failed to resize terminal device"@
    }

    /// The message for this error, given the text of its cause.
    pub fn describe(&self, detail: &str) -> (r: String)
        ensures
            r@ == Self::spec_description() + ": "@ + detail@,
    {
        let mut text = String::from_str("failed to resize terminal device");
        text.append(": ");
        text.append(detail);
        text
    }

    /// The message for this error: what failed, then the cause as `Display`
    /// writes it.
    pub fn message(&self) -> (r: String)
        ensures
            exists|detail: String|
                vstd::string::to_string_from_display_ensures::<std::io::Error>(&self.0, detail) && r@
                    == Self::spec_description() + ": "@ + detail@,
    {
        let detail = self.0.to_string();
        self.describe(detail.as_str())
    }
}

/// The message of an allocation error tells which step failed: different steps
/// open their messages with different texts.
pub proof fn allocate_descriptions_distinct(a: AllocateStage, b: AllocateStage)
    requires
        a != b,
    ensures
        a.spec_description() != b.spec_description(),
{
    reveal_strlit("failed to open new pseudo terminal");
    reveal_strlit("failed to grant permissions on child terminal device");
    reveal_strlit("failed to unlock child terminal device");
    reveal_strlit("failed to get name of child terminal device");
    reveal_strlit("failed to open child terminal device");
    let opens = |s: AllocateStage| s == AllocateStage::Open || s == AllocateStage::OpenChild;
    let starts_g = |s: AllocateStage| s == AllocateStage::Grant || s == AllocateStage::GetChildName;
    let k: int = if opens(a) && opens(b) {
        15
    } else if starts_g(a) && starts_g(b) {
        11
    } else {
        10
    };
    assert(a.spec_description()[k] != b.spec_description()[k]);
}

/// The message of a spawn error tells which step failed: different steps open
/// their messages with different texts.
pub proof fn spawn_descriptions_distinct(a: SpawnStage, b: SpawnStage)
    requires
        a != b,
    ensures
        a.spec_description() != b.spec_description(),
{
    reveal_strlit("failed to duplicate file descriptor for standard I/O stream");
    reveal_strlit("failed to create new process group");
    reveal_strlit("failed to set controlling terminal for new process group");
    reveal_strlit("failed to spawn child process");
    reveal_strlit("failed to wrap pseudo terminal file descriptor for use with tokio");
    let starts_s = |s: SpawnStage| s == SpawnStage::SetControllingTerminal || s == SpawnStage::Spawn;
    let k: int = if starts_s(a) && starts_s(b) {
        11
    } else {
        10
    };
    assert(a.spec_description()[k] != b.spec_description()[k]);
}

} // verus!
