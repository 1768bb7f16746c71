//! Release metadata: which distribution a mounted volume holds, and for
//! which processor it was built.

use crate::lines::{lines, split_lines, texts, without, remove_char};
use crate::text::{
    begins_with,
    contains,
    copy_range,
    from_chars,
    starts_with,
    text_contains,
    to_chars,
    trim,
    trimmed,
};
use vstd::prelude::*;

verus! {

/// Name and version of a distribution, as its release file spells them.
#[derive(Debug, PartialEq, Eq)]
pub struct DistroNameVersion {
    pub name: String,
    pub version_id: String,
}

/// Mathematical form of a [`DistroNameVersion`].
pub struct DistroNameVersionView {
    pub name: Seq<char>,
    pub version_id: Seq<char>,
}

impl View for DistroNameVersion {
    type V = DistroNameVersionView;

    open spec fn view(&self) -> DistroNameVersionView {
        DistroNameVersionView { name: self.name@, version_id: self.version_id@ }
    }
}

impl Clone for DistroNameVersion {
    fn clone(&self) -> (r: Self)
        ensures
            r == *self,
    {
        DistroNameVersion { name: self.name.clone(), version_id: self.version_id.clone() }
    }
}

impl DistroNameVersion {
    /// The identity of a disk on which nothing was found: both texts empty.
    pub fn unknown() -> (r: DistroNameVersion)
        ensures
            r@.name == Seq::<char>::empty(),
            r@.version_id == Seq::<char>::empty(),
    {
        DistroNameVersion { name: String::new(), version_id: String::new() }
    }
}

/// Processor architecture of the system under recovery.
#[derive(Debug, Clone, Copy, PartialEq, Eq, Structural)]
pub enum Architecture {
    X86_64,
    Aarch64,
}

impl Architecture {
    /// How the architecture is written.
    pub open spec fn label(self) -> Seq<char> {
        match self {
            Architecture::X86_64 => "x86_64"@,
            Architecture::Aarch64 => "aarch64"@,
        }
    }

    /// Executable [`Architecture::label`].
    pub fn name(&self) -> (r: &'static str)
        ensures
            r@ == self.label(),
    {
        match self {
            Architecture::X86_64 => "x86_64",
            Architecture::Aarch64 => "aarch64",
        }
    }
}

/// The value that a key has in the lines of a release file. The last line
/// that starts with the key, once trimmed, decides: the value is the rest
/// of that line without any double quote. Without such a line it is empty.
pub open spec fn release_value_in(file: Seq<Seq<char>>, key: Seq<char>) -> Seq<char>
    decreases file.len(),
{
    if file.len() == 0 {
        seq![]
    } else {
        let line = trim(file.last());
        if starts_with(line, key) {
            without(line.skip(key.len() as int), '"')
        } else {
            release_value_in(file.drop_last(), key)
        }
    }
}

/// The value that a key has in the text of a release file.
pub open spec fn release_value(text: Seq<char>, key: Seq<char>) -> Seq<char> {
    release_value_in(lines(text), key)
}

fn value_of(file: &Vec<Vec<char>>, key: &str) -> (r: String)
    ensures
        r@ == release_value_in(texts(file@), key@),
{
    let k = to_chars(key);
    let mut value: Vec<char> = Vec::new();
    let mut i: usize = 0;
    assert(texts(file@).take(0) == Seq::<Seq<char>>::empty());
    while i < file.len()
        invariant
            i <= file.len(),
            k@ == key@,
            value@ == release_value_in(texts(file@).take(i as int), key@),
        decreases file.len() - i,
    {
        proof {
            let upto = texts(file@).take(i + 1);
            assert(upto.drop_last() == texts(file@).take(i as int));
            assert(upto.last() == file@[i as int]@);
        }
        let line = trimmed(&file[i]);
        if begins_with(&line, &k) {
            let rest = copy_range(&line, k.len(), line.len());
            assert(rest@ == line@.skip(k@.len() as int));
            value = remove_char(&rest, '"');
        }
        i = i + 1;
    }
    assert(texts(file@).take(file.len() as int) == texts(file@));
    from_chars(&value)
}

/// Reads the distribution's name and version out of the text of a release
/// file. Only the keys `NAME` and `VERSION_ID` are consumed, and their
/// values are taken as they stand: a version is text, not a number.
pub fn parse_os_release(text: &str) -> (r: DistroNameVersion)
    ensures
        r@.name == release_value(text@, "NAME="@),
        r@.version_id == release_value(text@, "VERSION_ID="@),
{
    let chars = to_chars(text);
    let file = split_lines(&chars);
    let name = value_of(&file, "NAME=");
    let version_id = value_of(&file, "VERSION_ID=");
    DistroNameVersion { name, version_id }
}

/// The architecture that the description of a system binary shows: ARM
/// where it mentions `aarch64`, x86 otherwise.
pub open spec fn architecture_in(binary_info: Seq<char>) -> Architecture {
    if contains(binary_info, "aarch64"@) {
        Architecture::Aarch64
    } else {
        Architecture::X86_64
    }
}

/// Executable [`architecture_in`].
pub fn architecture_of(binary_info: &str) -> (r: Architecture)
    ensures
        r == architecture_in(binary_info@),
{
    if text_contains(binary_info, "aarch64") {
        Architecture::Aarch64
    } else {
        Architecture::X86_64
    }
}

} // verus!
