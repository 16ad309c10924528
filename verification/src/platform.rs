//! The platforms the engine is published for, and what differs between them.

use vstd::prelude::*;

verus! {

/// An operating system and, where the bundle differs by it, a processor architecture.
#[derive(Clone, Copy, Debug, PartialEq, Eq, Structural)]
pub enum Platform {
    Linux,
    MacArm64,
    MacX86_64,
    Windows,
}

/// The suffix that turns an archive's address into the address of its digest.
pub open spec fn digest_suffix() -> Seq<char> {
    ".sha256"@
}

impl Platform {
    /// The address of the compressed engine bundle for this platform.
    pub open spec fn archive_address(self) -> Seq<char> {
        match self {
            Platform::Linux => "https://github.com/hulylabs/huly-cef/releases/latest/download/huly-cef-linux.zip"@,
            Platform::MacArm64 => "https://github.com/hulylabs/huly-cef/releases/latest/download/huly-cef-macos.zip"@,
            Platform::MacX86_64 => "https://github.com/hulylabs/huly-cef/releases/latest/download/huly-cef-macos.zip"@,
            Platform::Windows => "https://github.com/hulylabs/huly-cef/releases/latest/download/huly-cef-windows.zip"@,
        }
    }

    /// The engine's executable, relative to the directory that holds the bundle.
    pub open spec fn executable_path(self) -> Seq<char> {
        match self {
            Platform::Linux => "huly-cef-websockets"@,
            Platform::MacArm64 => "huly-cef-websockets-arm64.app/Contents/MacOS/huly-cef-websockets"@,
            Platform::MacX86_64 => "huly-cef-websockets-x86_64.app/Contents/MacOS/huly-cef-websockets"@,
            Platform::Windows => "huly-cef-websockets.exe"@,
        }
    }

    /// The address of the compressed engine bundle for this platform.
    pub fn archive_url(self) -> (url: &'static str)
        ensures
            url@ == self.archive_address(),
    {
        match self {
            Platform::Linux => "https://github.com/hulylabs/huly-cef/releases/latest/download/huly-cef-linux.zip",
            Platform::MacArm64 => "https://github.com/hulylabs/huly-cef/releases/latest/download/huly-cef-macos.zip",
            Platform::MacX86_64 => "https://github.com/hulylabs/huly-cef/releases/latest/download/huly-cef-macos.zip",
            Platform::Windows => "https://github.com/hulylabs/huly-cef/releases/latest/download/huly-cef-windows.zip",
        }
    }

    /// The engine's executable, relative to the directory that holds the bundle.
    pub fn executable(self) -> (path: &'static str)
        ensures
            path@ == self.executable_path(),
    {
        match self {
            Platform::Linux => "huly-cef-websockets",
            Platform::MacArm64 => "huly-cef-websockets-arm64.app/Contents/MacOS/huly-cef-websockets",
            Platform::MacX86_64 => "huly-cef-websockets-x86_64.app/Contents/MacOS/huly-cef-websockets",
            Platform::Windows => "huly-cef-websockets.exe",
        }
    }
}

/// The address of the digest that belongs to the archive at `url`.
pub fn digest_url(url: &str) -> (address: String)
    ensures
        address@ == url@ + digest_suffix(),
{
    let mut address = String::from_str(url);
    address.append(".sha256");
    address
}

} // verus!
