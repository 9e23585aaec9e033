//! The program that captures the other side's audio.
use vstd::prelude::*;

use crate::text::{decimal_text, join2};

verus! {

/// The file name of the capture program.
pub const SIDECAR_NAME: &'static str = "audiotee-aarch64-apple-darwin";

/// A place to look for the capture program.
#[derive(Clone, Copy, Debug, PartialEq, Eq, Structural)]
pub enum Place {
    /// A folder below the working directory.
    BelowWorkingDir(Folder),
    /// A folder below the parent of the working directory.
    BelowParent(Folder),
    /// The empty path: the working directory has no parent.
    Nowhere,
}

/// A folder that may hold the capture program.
#[derive(Clone, Copy, Debug, PartialEq, Eq, Structural)]
pub enum Folder {
    /// `binaries`.
    Binaries,
    /// `polyglot-app/src-tauri/binaries`.
    AppBinaries,
    /// `src-tauri/binaries`.
    TauriBinaries,
}

impl Folder {
    /// The path of the folder.
    pub open spec fn path_view(self) -> Seq<char> {
        match self {
            Folder::Binaries => "binaries"@,
            Folder::AppBinaries => "polyglot-app/src-tauri/binaries"@,
            Folder::TauriBinaries => "src-tauri/binaries"@,
        }
    }

    /// The path of the folder.
    pub fn path(self) -> (r: &'static str)
        ensures
            r@ == self.path_view(),
    {
        match self {
            Folder::Binaries => "binaries",
            Folder::AppBinaries => "polyglot-app/src-tauri/binaries",
            Folder::TauriBinaries => "src-tauri/binaries",
        }
    }
}

/// The places to look for the capture program, in order.
pub open spec fn places(has_parent: bool) -> Seq<Place> {
    seq![
        Place::BelowWorkingDir(Folder::Binaries),
        Place::BelowWorkingDir(Folder::AppBinaries),
        if has_parent {
            Place::BelowParent(Folder::TauriBinaries)
        } else {
            Place::Nowhere
        },
    ]
}

/// The places to look for the capture program, in order.
pub fn sidecar_places(has_parent: bool) -> (r: Vec<Place>)
    ensures
        r@ == places(has_parent),
{
    let mut list: Vec<Place> = Vec::new();
    list.push(Place::BelowWorkingDir(Folder::Binaries));
    list.push(Place::BelowWorkingDir(Folder::AppBinaries));
    if has_parent {
        list.push(Place::BelowParent(Folder::TauriBinaries));
    } else {
        list.push(Place::Nowhere);
    }
    assert(list@ =~= places(has_parent));
    list
}

/// What is said where the capture program is nowhere to be found; `tried` lists the paths.
pub open spec fn sidecar_missing(tried: Seq<char>) -> Seq<char> {
    "audiotee binary not found. Expected one of: "@ + tried
}

/// Picks the first place at which there is a file.
pub fn locate_sidecar(exists_at: &[bool], tried: &str) -> (r: Result<usize, String>)
    ensures
        match r {
            Ok(i) => {
                &&& i < exists_at@.len()
                &&& exists_at@[i as int]
                &&& forall|k: int| 0 <= k < i ==> !#[trigger] exists_at@[k]
            },
            Err(message) => {
                &&& message@ == sidecar_missing(tried@)
                &&& forall|k: int| 0 <= k < exists_at@.len() ==> !#[trigger] exists_at@[k]
            },
        },
{
    let mut i: usize = 0;
    while i < exists_at.len()
        invariant
            i <= exists_at@.len(),
            forall|k: int| 0 <= k < i ==> !#[trigger] exists_at@[k],
        decreases exists_at@.len() - i,
    {
        if exists_at[i] {
            return Ok(i);
        }
        i = i + 1;
    }
    Err(join2("audiotee binary not found. Expected one of: ", tried))
}

/// The meaning of a list of arguments.
pub open spec fn args_view(args: Seq<String>) -> Seq<Seq<char>> {
    Seq::new(args.len(), |i: int| args[i]@)
}

/// The arguments of the capture program: all audio but that of the given process, at the rate
/// of the service, muted at its source.
pub open spec fn sidecar_args_view(own_pid: u32) -> Seq<Seq<char>> {
    seq![
        "--exclude-processes"@,
        crate::text::decimal(own_pid as nat),
        "--sample-rate"@,
        crate::text::decimal(crate::playback::TARGET_SAMPLE_RATE as nat),
        "--mute"@,
    ]
}

/// The arguments of the capture program: all audio but that of the given process, at the rate
/// of the service, muted at its source.
pub fn sidecar_args(own_pid: u32) -> (r: Vec<String>)
    ensures
        args_view(r@) == sidecar_args_view(own_pid),
{
    let mut args: Vec<String> = Vec::new();
    args.push("--exclude-processes".to_owned());
    args.push(decimal_text(own_pid as u64));
    args.push("--sample-rate".to_owned());
    args.push(decimal_text(crate::playback::TARGET_SAMPLE_RATE as u64));
    args.push("--mute".to_owned());
    assert(args_view(args@) =~= sidecar_args_view(own_pid));
    args
}

/// The capture program leaves out the very process that is named to it: the number that it
/// reads is the one that was given.
pub proof fn law_own_audio_is_left_out(own_pid: u32)
    ensures
        crate::processes::number_in(sidecar_args_view(own_pid)[1]) == Some(own_pid),
{
    crate::processes::law_numbers_survive_writing(own_pid);
}

/// The capture program is told to leave out the given process, to sample at 24000 Hz and to mute
/// what it captures, and nothing else.
pub proof fn law_capture_program_is_told(own_pid: u32)
    ensures
        ({
            let args = sidecar_args_view(own_pid);
            &&& args.len() == 5
            &&& args[0] == "--exclude-processes"@
            &&& args[1] == crate::text::decimal(own_pid as nat)
            &&& args[2] == "--sample-rate"@
            &&& args[3] == crate::text::decimal(24000)
            &&& args[4] == "--mute"@
        }),
{
}

/// The capture program is looked for below the working directory first, in the folder of its own
/// and then in that of the application, and last below its parent, where there is one.
pub proof fn law_places_are_tried_in_order(has_parent: bool)
    ensures
        places(has_parent).len() == 3,
        places(has_parent)[0] == Place::BelowWorkingDir(Folder::Binaries),
        places(has_parent)[1] == Place::BelowWorkingDir(Folder::AppBinaries),
        has_parent ==> places(has_parent)[2] == Place::BelowParent(Folder::TauriBinaries),
        !has_parent ==> places(has_parent)[2] == Place::Nowhere,
        Folder::Binaries.path_view() == "binaries"@,
        Folder::AppBinaries.path_view() == "polyglot-app/src-tauri/binaries"@,
        Folder::TauriBinaries.path_view() == "src-tauri/binaries"@,
{
}

} // verus!
