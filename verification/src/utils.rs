//! Where the application finds its resources, and which drive letter a new
//! mount gets.

use crate::launch::Platform;
use vstd::prelude::*;
use vstd::string::{StrSliceExecFns, StringExecFns};

verus! {

/// Where the resources of the application lie, seen from the directory of
/// its executable.
#[derive(Clone, Copy, Debug, PartialEq, Eq, Structural)]
pub enum ResourcesDir {
    /// In the directory of the executable.
    BesideExecutable,
    /// In the directory `lib` beside the directory of the executable, under
    /// the name of the executable.
    LibOfParent,
    /// In the directory `Resources` beside the directory of the executable.
    ResourcesOfParent,
}

/// The directory that the application works in. A development build stays
/// where it was started; a release build moves to its resources, which lie
/// where the packaging of the platform puts them.
pub fn resources_dir(platform: Platform, release: bool) -> (dir: Option<ResourcesDir>)
    ensures
        dir == if !release {
            None
        } else {
            Some(
                match platform {
                    Platform::Linux => ResourcesDir::LibOfParent,
                    Platform::Windows => ResourcesDir::BesideExecutable,
                    Platform::MacOs => ResourcesDir::ResourcesOfParent,
                },
            )
        },
{
    if !release {
        None
    } else {
        Some(
            match platform {
                Platform::Linux => ResourcesDir::LibOfParent,
                Platform::Windows => ResourcesDir::BesideExecutable,
                Platform::MacOs => ResourcesDir::ResourcesOfParent,
            },
        )
    }
}

/// The number of drive letters.
pub const DRIVE_LETTERS: usize = 26;

/// The name of the drive with the letter at `index`, counted from `A`.
pub open spec fn drive_name(index: int) -> Seq<char> {
    "ABCDEFGHIJKLMNOPQRSTUVWXYZ"@.subrange(index, index + 1) + ":"@
}

/// The drive that a new mount gets: the last free one in the alphabet.
/// `in_use` says for each letter from `A` on whether its drive is taken.
pub open spec fn free_drive(in_use: Seq<bool>) -> Option<int> {
    if exists|i: int| 0 <= i < in_use.len() && !in_use[i] {
        Some(choose|i: int| is_last_free(in_use, i))
    } else {
        None
    }
}

/// Whether the drive at `index` is free and every later one is taken.
pub open spec fn is_last_free(in_use: Seq<bool>, index: int) -> bool {
    &&& 0 <= index < in_use.len()
    &&& !in_use[index]
    &&& forall|k: int| index < k < in_use.len() ==> in_use[k]
}

/// The drive that a new mount gets: the last free one in the alphabet, or
/// none where every drive is taken.
pub fn find_first_available_drive_letter(in_use: &[bool; 26]) -> (drive: Option<String>)
    ensures
        drive is Some == free_drive(in_use@) is Some,
        drive is Some ==> is_last_free(in_use@, free_drive(in_use@)->0) && drive->0@ == drive_name(
            free_drive(in_use@)->0,
        ),
{
    let mut i: usize = 26;
    while i > 0
        invariant
            i <= 26,
            in_use@.len() == 26,
            forall|k: int| i <= k < 26 ==> in_use@[k],
        decreases i,
    {
        i -= 1;
        if !in_use[i] {
            proof {
                reveal_strlit("ABCDEFGHIJKLMNOPQRSTUVWXYZ");
                assert(is_last_free(in_use@, i as int));
                let chosen = choose|k: int| is_last_free(in_use@, k);
                assert(chosen == i) by {
                    if chosen < i {
                        assert(in_use@[i as int]);
                    }
                    if chosen > i {
                        assert(in_use@[chosen]);
                    }
                }
            }
            let mut drive = "ABCDEFGHIJKLMNOPQRSTUVWXYZ".substring_char(i, i + 1).to_owned();
            drive.append(":");
            return Some(drive);
        }
    }
    None
}

} // verus!
