//! Bookkeeping for shader source files: which have been loaded, when each
//! was last seen modified, and whether any has changed since.
//!
//! Reading a file and compiling it are the caller's work. The directory is
//! told what the caller saw and decides what that means.

use crate::uniformbuffer::{is_memory_image, memory_image};
use vstd::prelude::*;

verus! {

/// Modification time of a source file, in whole units since a fixed epoch.
/// `None` stands for a file that could not be read at all.
pub type Timestamp = Option<u64>;

/// Abstract state of a directory: the loaded paths in the order in which
/// they were first loaded, each with the modification time recorded at its
/// last load.
pub type Loaded = Seq<(Seq<char>, Timestamp)>;

/// A shader source file that has been loaded at least once.
#[derive(Clone, Debug, PartialEq, Eq)]
pub struct ShaderSourceFile {
    pub path: String,
    pub last_modified: Timestamp,
}

/// What the caller saw of one file when it looked.
#[derive(Clone, Debug, PartialEq, Eq)]
pub struct SourceStamp {
    pub path: String,
    pub modified: Timestamp,
}

/// No path occurs twice.
pub open spec fn distinct_paths(loaded: Loaded) -> bool {
    forall|i: int, j: int|
        0 <= i < loaded.len() && 0 <= j < loaded.len() && #[trigger] loaded[i].0
            == #[trigger] loaded[j].0 ==> i == j
}

/// `path` is among the loaded files.
pub open spec fn knows(loaded: Loaded, path: Seq<char>) -> bool {
    exists|i: int| 0 <= i < loaded.len() && #[trigger] loaded[i].0 == path
}

/// The state after a load of `path` that saw the modification time
/// `modified`: a loaded file is replaced in place, a new one is added at the
/// end. Nothing is ever removed.
pub open spec fn spec_load(loaded: Loaded, path: Seq<char>, modified: Timestamp) -> Loaded {
    if knows(loaded, path) {
        let i = choose|i: int| 0 <= i < loaded.len() && #[trigger] loaded[i].0 == path;
        loaded.update(i, (path, modified))
    } else {
        loaded.push((path, modified))
    }
}

/// The modification time that `stamps` reports for `path`: that of the first
/// stamp with this path. A file without a stamp was not found.
pub open spec fn observed(stamps: Seq<SourceStamp>, path: Seq<char>) -> Timestamp
    decreases stamps.len(),
{
    if stamps.len() == 0 {
        None
    } else if stamps[0].path@ == path {
        stamps[0].modified
    } else {
        observed(stamps.drop_first(), path)
    }
}

/// Some loaded file is reported with another modification time than the one
/// recorded at its last load.
pub open spec fn spec_detected_change(loaded: Loaded, stamps: Seq<SourceStamp>) -> bool {
    exists|i: int|
        0 <= i < loaded.len() && (#[trigger] loaded[i]).1 != observed(stamps, loaded[i].0)
}

/// Looks `path` up in `stamps`.
pub fn observe(stamps: &Vec<SourceStamp>, path: &String) -> (modified: Timestamp)
    ensures
        modified == observed(stamps@, path@),
{
    let mut i: usize = 0;
    assert(stamps@.skip(0) == stamps@);
    while i < stamps.len()
        invariant
            i <= stamps.len(),
            observed(stamps@, path@) == observed(stamps@.skip(i as int), path@),
        decreases stamps.len() - i,
    {
        assert(stamps@.skip(i as int).drop_first() == stamps@.skip(i as int + 1));
        if stamps[i].path == *path {
            return stamps[i].modified;
        }
        i += 1;
    }
    None
}

/// The shader source files that have been loaded, under one root directory.
pub struct ShaderDirectory {
    directory: String,
    files: Vec<ShaderSourceFile>,
}

impl View for ShaderDirectory {
    type V = Loaded;

    closed spec fn view(&self) -> Loaded {
        self.files@.map_values(|file: ShaderSourceFile| (file.path@, file.last_modified))
    }
}

impl ShaderDirectory {
    /// No path is held twice.
    pub open spec fn wf(&self) -> bool {
        distinct_paths(self@)
    }

    /// The root under which the source files lie.
    pub closed spec fn spec_directory(&self) -> Seq<char> {
        self.directory@
    }

    /// A directory that knows no file yet.
    pub fn new(directory: String) -> (shader_dir: ShaderDirectory)
        ensures
            shader_dir.wf(),
            shader_dir@ == Loaded::empty(),
            shader_dir.spec_directory() == directory@,
    {
        ShaderDirectory { directory, files: Vec::new() }
    }

    pub fn directory(&self) -> (directory: &String)
        ensures
            directory@ == self.spec_directory(),
    {
        &self.directory
    }

    /// The loaded files in the order in which they were first loaded.
    pub fn files(&self) -> (files: &Vec<ShaderSourceFile>)
        ensures
            files@.len() == self@.len(),
            forall|i: int|
                0 <= i < files@.len() ==> (#[trigger] files@[i]).path@ == self@[i].0
                    && files@[i].last_modified == self@[i].1,
    {
        &self.files
    }

    fn position(&self, path: &String) -> (found: Option<usize>)
        ensures
            match found {
                Some(i) => i < self@.len() && self@[i as int].0 == path@,
                None => !knows(self@, path@),
            },
    {
        let mut i: usize = 0;
        while i < self.files.len()
            invariant
                i <= self.files.len(),
                self@.len() == self.files.len(),
                forall|j: int| 0 <= j < i ==> (#[trigger] self@[j]).0 != path@,
            decreases self.files.len() - i,
        {
            if self.files[i].path == *path {
                return Some(i);
            }
            i += 1;
        }
        None
    }

    /// Records a load of `path`: `modified` is the modification time that the
    /// caller saw, `compiled` what the compiler made of the source, if
    /// anything. The time is recorded whether or not there is a module, and
    /// the module is handed on as it came.
    pub fn load_shader_module<Module>(
        &mut self,
        path: String,
        modified: Timestamp,
        compiled: Option<Module>,
    ) -> (module: Option<Module>)
        requires
            old(self).wf(),
        ensures
            final(self).wf(),
            final(self)@ == spec_load(old(self)@, path@, modified),
            final(self).spec_directory() == old(self).spec_directory(),
            module == compiled,
    {
        let ghost before = self@;
        match self.position(&path) {
            Some(i) => {
                let ghost chosen = choose|k: int|
                    0 <= k < before.len() && #[trigger] before[k].0 == path@;
                assert(chosen == i);
                self.files[i] = ShaderSourceFile { path, last_modified: modified };
                assert(self@ == before.update(i as int, (path@, modified)));
            },
            None => {
                self.files.push(ShaderSourceFile { path, last_modified: modified });
                assert(self@ == before.push((path@, modified)));
            },
        }
        compiled
    }

    /// Whether any loaded file has changed: `stamps` is what the caller sees
    /// of the files now. Records nothing.
    pub fn detected_change(&self, stamps: &Vec<SourceStamp>) -> (changed: bool)
        ensures
            changed == spec_detected_change(self@, stamps@),
    {
        let mut i: usize = 0;
        while i < self.files.len()
            invariant
                i <= self.files.len(),
                self@.len() == self.files.len(),
                forall|j: int| 0 <= j < i ==> (#[trigger] self@[j]).1 == observed(stamps@, self@[j].0),
            decreases self.files.len() - i,
        {
            let now = observe(stamps, &self.files[i].path);
            if !same_time(now, self.files[i].last_modified) {
                assert(self@[i as int].1 != observed(stamps@, self@[i as int].0));
                return true;
            }
            i += 1;
        }
        false
    }
}

/// The directory under which the shader sources lie, relative to the
/// directory that the program runs in.
pub open spec fn spec_shader_root() -> Seq<char> {
    "shader"@
}

pub fn shader_root() -> (root: String)
    ensures
        root@ == spec_shader_root(),
{
    "shader".to_owned()
}

/// Path of the compiled binary of the source at `source`: the binary lies
/// beside the source, under the source's name with `.spv` added.
pub fn binary_path(source: &str) -> (binary: String)
    ensures
        binary@ == source@ + ".spv"@,
{
    source.to_owned().concat(".spv")
}

/// The first word of every SPIR-V binary.
pub const SPIRV_MAGIC_NUMBER: u32 = 0x0723_0203;

/// `bytes` has the shape of a binary module whose first word lies in memory
/// as `magic`: at least one word, whole words only, and `magic` at its
/// start.
pub open spec fn spec_has_header(bytes: Seq<u8>, magic: Seq<u8>) -> bool {
    bytes.len() >= 4 && bytes.len() % 4 == 0 && magic.len() == 4 && bytes.subrange(0, 4) == magic
}

/// Whether `bytes` has the shape of a binary module that begins with the
/// four bytes `magic`.
pub fn has_header(bytes: &Vec<u8>, magic: &Vec<u8>) -> (ok: bool)
    ensures
        ok == spec_has_header(bytes@, magic@),
{
    if bytes.len() < 4 || bytes.len() % 4 != 0 || magic.len() != 4 {
        return false;
    }
    let mut i: usize = 0;
    while i < 4
        invariant
            i <= 4,
            bytes@.len() >= 4,
            magic@.len() == 4,
            forall|k: int| 0 <= k < i ==> bytes@[k] == magic@[k],
        decreases 4 - i,
    {
        if bytes[i] != magic[i] {
            assert(bytes@.subrange(0, 4)[i as int] != magic@[i as int]);
            return false;
        }
        i += 1;
    }
    assert(bytes@.subrange(0, 4) =~= magic@);
    true
}

/// Whether `bytes` can be handed to the device as a SPIR-V binary: whether
/// they are at least one word, whole words only, and begin with the magic
/// number as this machine stores it. The answer is the header test against
/// one of the two memory images of the magic number. So bytes that are too
/// few, not whole words, or begin with anything but the magic number in one
/// byte order or the other are never accepted.
pub fn is_spirv_binary(bytes: &Vec<u8>) -> (ok: bool)
    ensures
        exists|magic: Seq<u8>| #[trigger]
            is_memory_image(magic, seq![SPIRV_MAGIC_NUMBER]) && ok == spec_has_header(
                bytes@,
                magic,
            ),
        ok ==> bytes@.len() >= 4 && bytes@.len() % 4 == 0 && is_memory_image(
            bytes@.subrange(0, 4),
            seq![SPIRV_MAGIC_NUMBER],
        ),
        bytes@.len() < 4 || bytes@.len() % 4 != 0 || !is_memory_image(
            bytes@.subrange(0, 4),
            seq![SPIRV_MAGIC_NUMBER],
        ) ==> !ok,
{
    let mut word: Vec<u32> = Vec::new();
    word.push(SPIRV_MAGIC_NUMBER);
    assert(word@ =~= seq![SPIRV_MAGIC_NUMBER]);
    let magic = memory_image(&word);
    has_header(bytes, &magic)
}

/// Whether two modification times are the same.
pub fn same_time(a: Timestamp, b: Timestamp) -> (same: bool)
    ensures
        same == (a == b),
{
    match (a, b) {
        (Some(x), Some(y)) => x == y,
        (None, None) => true,
        _ => false,
    }
}

/// Loading keeps the paths distinct, keeps every other file as it was, and
/// leaves the loaded file loaded with the time that was seen.
pub proof fn lemma_load(loaded: Loaded, path: Seq<char>, modified: Timestamp)
    requires
        distinct_paths(loaded),
    ensures
        distinct_paths(spec_load(loaded, path, modified)),
        knows(spec_load(loaded, path, modified), path),
        spec_load(loaded, path, modified).len() >= loaded.len(),
        forall|i: int|
            0 <= i < loaded.len() ==> (#[trigger] spec_load(loaded, path, modified)[i]).0
                == loaded[i].0,
        forall|i: int|
            0 <= i < loaded.len() && loaded[i].0 != path ==> #[trigger] spec_load(
                loaded,
                path,
                modified,
            )[i] == loaded[i],
        forall|i: int|
            0 <= i < spec_load(loaded, path, modified).len() && (#[trigger] spec_load(
                loaded,
                path,
                modified,
            )[i]).0 == path ==> spec_load(loaded, path, modified)[i].1 == modified,
{
    let after = spec_load(loaded, path, modified);
    if knows(loaded, path) {
        let i = choose|i: int| 0 <= i < loaded.len() && #[trigger] loaded[i].0 == path;
        assert(after[i].0 == path);
    } else {
        assert(after[loaded.len() as int].0 == path);
    }
}

/// Right after a load, with no file modified in between, no change is
/// detected: if `stamps` shows the loaded file at the time its load saw, and
/// every other loaded file at its recorded time, the answer is `false`.
pub proof fn lemma_no_change_after_load(
    loaded: Loaded,
    path: Seq<char>,
    modified: Timestamp,
    stamps: Seq<SourceStamp>,
)
    requires
        distinct_paths(loaded),
        observed(stamps, path) == modified,
        forall|i: int|
            0 <= i < loaded.len() && (#[trigger] loaded[i]).0 != path ==> loaded[i].1
                == observed(stamps, loaded[i].0),
    ensures
        !spec_detected_change(spec_load(loaded, path, modified), stamps),
{
    lemma_load(loaded, path, modified);
    let after = spec_load(loaded, path, modified);
    assert forall|i: int| 0 <= i < after.len() implies (#[trigger] after[i]).1 == observed(
        stamps,
        after[i].0,
    ) by {
        if after[i].0 != path {
            assert(i < loaded.len());
            assert(after[i] == loaded[i]);
        }
    }
}

/// Once the modification time of a loaded file has advanced past the
/// recorded one, a change is detected, whatever the other files show.
pub proof fn lemma_advance_is_detected(loaded: Loaded, stamps: Seq<SourceStamp>, i: int)
    requires
        0 <= i < loaded.len(),
        loaded[i].1 is Some,
        observed(stamps, loaded[i].0) is Some,
        observed(stamps, loaded[i].0)->0 > loaded[i].1->0,
    ensures
        spec_detected_change(loaded, stamps),
{
}

} // verus!
