//! Where the library artifact lives: the file the build tool writes and the
//! two copies that the running process opens instead of it.
//!
//! Paths are handled as text. A path is cut at its last separator into a
//! folder and a file name; nothing is normalised and the file system is never
//! asked.

use crate::text::{
    after_last, after_last_is_last, after_last_unique, concat2, find_after_last, is_one_of,
};
use vstd::prelude::*;

verus! {

/// The family of operating systems the process runs on. It decides how paths
/// are cut and joined and which extension a dynamic library carries.
#[derive(Clone, Copy, Debug, PartialEq, Eq, Structural)]
pub enum Platform {
    /// Components are separated by `/`; libraries end in `.so`.
    Unix,
    /// Components are separated by `\` or `/`; libraries end in `.dll`.
    Windows,
}

impl Platform {
    /// The characters that separate the components of a path.
    pub open spec fn separators(self) -> Seq<char> {
        match self {
            Platform::Unix => seq!['/'],
            Platform::Windows => seq!['\\', '/'],
        }
    }

    /// The separator written when a folder and a file name are joined.
    pub open spec fn separator(self) -> char {
        match self {
            Platform::Unix => '/',
            Platform::Windows => '\\',
        }
    }

    /// The extension of a dynamic library, without the dot.
    pub open spec fn extension(self) -> Seq<char> {
        match self {
            Platform::Unix => seq!['s', 'o'],
            Platform::Windows => seq!['d', 'l', 'l'],
        }
    }

    /// The separator characters, as text.
    pub fn separators_text(&self) -> (r: &'static str)
        ensures
            r@ == self.separators(),
    {
        proof {
            reveal_strlit("/");
            reveal_strlit("\\/");
        }
        let r = match self {
            Platform::Unix => "/",
            Platform::Windows => "\\/",
        };
        assert(r@ =~= self.separators());
        r
    }

    /// The separator used for joining, as text.
    pub fn separator_text(&self) -> (r: &'static str)
        ensures
            r@ == seq![self.separator()],
    {
        proof {
            reveal_strlit("/");
            reveal_strlit("\\");
        }
        let r = match self {
            Platform::Unix => "/",
            Platform::Windows => "\\",
        };
        assert(r@ =~= seq![self.separator()]);
        r
    }

    /// The extension of a dynamic library, as text.
    pub fn extension_text(&self) -> (r: &'static str)
        ensures
            r@ == self.extension(),
    {
        proof {
            reveal_strlit("so");
            reveal_strlit("dll");
        }
        let r = match self {
            Platform::Unix => "so",
            Platform::Windows => "dll",
        };
        assert(r@ =~= self.extension());
        r
    }
}

/// The last component of a path: what follows its last separator.
pub open spec fn file_name(platform: Platform, path: Seq<char>) -> Seq<char> {
    path.subrange(after_last(path, platform.separators()) as int, path.len() as int)
}

/// The folder of a path: what precedes its last separator. A separator that
/// opens the path stays, so that the folder of `/app` is `/`.
pub open spec fn parent(platform: Platform, path: Seq<char>) -> Seq<char> {
    let cut = after_last(path, platform.separators());
    if cut <= 1 {
        path.subrange(0, cut as int)
    } else {
        path.subrange(0, cut - 1)
    }
}

/// A file name without its extension: what precedes its last dot. A name
/// without a dot, or whose only dot opens it, is its own stem.
pub open spec fn file_stem(name: Seq<char>) -> Seq<char> {
    let cut = after_last(name, seq!['.']);
    if cut <= 1 {
        name
    } else {
        name.subrange(0, cut - 1)
    }
}

/// `file` inside `folder`: a separator is written between the two unless the
/// folder is empty or ends in one.
pub open spec fn join(platform: Platform, folder: Seq<char>, file: Seq<char>) -> Seq<char> {
    if folder.len() == 0 || platform.separators().contains(folder.last()) {
        folder + file
    } else {
        folder.push(platform.separator()) + file
    }
}

/// The three names of one library artifact: folder, base name, and the
/// platform that gives the extension. Made once and never changed.
#[derive(Clone, Debug)]
pub struct LibPathSet {
    folder: String,
    name: String,
    platform: Platform,
}

/// What a `LibPathSet` holds, as text.
pub struct LibPathSetView {
    /// The folder that holds the artifact and its copies.
    pub folder: Seq<char>,
    /// The base name of the library, without extension.
    pub name: Seq<char>,
    /// The platform the paths are written for.
    pub platform: Platform,
}

impl LibPathSetView {
    /// The path of the artifact whose base name carries `suffix`.
    pub open spec fn path(self, suffix: Seq<char>) -> Seq<char> {
        join(
            self.platform,
            self.folder,
            self.name + suffix + seq!['.'] + self.platform.extension(),
        )
    }

    /// The file the build tool writes.
    pub open spec fn lib_file(self) -> Seq<char> {
        self.path(Seq::empty())
    }

    /// The copy opened on each reload.
    pub open spec fn hot_in_use_file(self) -> Seq<char> {
        self.path(hot_suffix())
    }

    /// The copy opened once, for the first launch.
    pub open spec fn main_in_use_file(self) -> Seq<char> {
        self.path(main_suffix())
    }
}

/// What the base name of the reload copy carries.
pub open spec fn hot_suffix() -> Seq<char> {
    "_hot_in_use"@
}

/// What the base name of the first-launch copy carries.
pub open spec fn main_suffix() -> Seq<char> {
    "_main_in_use"@
}

/// What precedes the executable's stem in a base name that was not given.
pub open spec fn default_prefix() -> Seq<char> {
    "lib_"@
}

/// The paths that `LibPathSet::new` derives, where it derives any: none when
/// the executable's path is unknown or names no file.
pub open spec fn resolve(
    library_name: Option<Seq<char>>,
    executable: Option<Seq<char>>,
    platform: Platform,
) -> Option<LibPathSetView> {
    match executable {
        None => None,
        Some(exe) => if file_name(platform, exe).len() == 0 {
            None
        } else {
            Some(
                LibPathSetView {
                    folder: parent(platform, exe),
                    name: match library_name {
                        Some(name) => name,
                        None => default_prefix() + file_stem(file_name(platform, exe)),
                    },
                    platform,
                },
            )
        },
    }
}

/// Whether no character of `s` separates path components on `platform`.
pub open spec fn is_file_name(platform: Platform, s: Seq<char>) -> bool {
    forall|i: int| 0 <= i < s.len() ==> !platform.separators().contains(#[trigger] s[i])
}

/// The separators are the slash and, on Windows, the backslash.
pub proof fn separators_are(platform: Platform, c: char)
    ensures
        platform.separators().contains(c) <==> (c == '/' || (platform == Platform::Windows && c
            == '\\')),
{
    let stops = platform.separators();
    if c == '/' {
        match platform {
            Platform::Unix => {
                assert(stops[0] == c);
            },
            Platform::Windows => {
                assert(stops[1] == c);
            },
        }
    } else if platform == Platform::Windows && c == '\\' {
        assert(stops[0] == c);
    }
}

/// Whether `folder` is written as `parent` writes folders: without a closing
/// separator, unless the separator is all there is.
pub open spec fn is_folder(platform: Platform, folder: Seq<char>) -> bool {
    folder.len() >= 2 ==> !platform.separators().contains(folder.last())
}

/// Cutting a joined path gives back the folder and the file name it was
/// joined from.
pub proof fn join_splits_back(platform: Platform, folder: Seq<char>, file: Seq<char>)
    requires
        is_folder(platform, folder),
        is_file_name(platform, file),
    ensures
        parent(platform, join(platform, folder, file)) == folder,
        file_name(platform, join(platform, folder, file)) == file,
{
    let stops = platform.separators();
    let path = join(platform, folder, file);
    assert(stops.contains(platform.separator())) by {
        assert(stops[0] == platform.separator());
    }
    let cut: int = if folder.len() == 0 || stops.contains(folder.last()) {
        folder.len() as int
    } else {
        folder.len() as int + 1
    };
    assert(path.len() == cut + file.len());
    assert forall|j: int| cut <= j < path.len() implies !stops.contains(#[trigger] path[j]) by {
        assert(path[j] == file[j - cut]);
    }
    after_last_unique(path, stops, cut);
    assert(parent(platform, path) =~= folder);
    assert(file_name(platform, path) =~= file);
}

/// A file name that ends in a dot and an extension has what precedes that
/// dot as its stem.
pub proof fn file_stem_drops_extension(stem: Seq<char>, extension: Seq<char>)
    requires
        stem.len() > 0,
        forall|i: int| 0 <= i < extension.len() ==> extension[i] != '.',
    ensures
        file_stem(stem.push('.') + extension) == stem,
{
    let name = stem.push('.') + extension;
    let stops = seq!['.'];
    let cut: int = stem.len() as int + 1;
    assert(stops.contains('.')) by {
        assert(stops[0] == '.');
    }
    assert(name[cut - 1] == '.');
    assert forall|j: int| cut <= j < name.len() implies !stops.contains(#[trigger] name[j]) by {
        assert(name[j] == extension[j - cut]);
    }
    after_last_unique(name, stops, cut);
    assert(name.subrange(0, cut - 1) =~= stem);
}

/// A file name without a dot is its own stem.
pub proof fn file_stem_without_extension(name: Seq<char>)
    requires
        forall|i: int| 0 <= i < name.len() ==> name[i] != '.',
    ensures
        file_stem(name) == name,
{
    let stops = seq!['.'];
    assert forall|j: int| 0 <= j < name.len() implies !stops.contains(#[trigger] name[j]) by {
        assert(name[j] != '.');
    }
    after_last_unique(name, stops, 0);
}

/// The three paths of a set lie in its folder, and the file name of each is
/// the base name, what the copy adds to it, a dot and the platform's
/// extension: they differ in nothing else.
pub proof fn paths_share_folder(paths: LibPathSetView, suffix: Seq<char>)
    requires
        is_folder(paths.platform, paths.folder),
        is_file_name(paths.platform, paths.name),
        suffix == Seq::<char>::empty() || suffix == hot_suffix() || suffix == main_suffix(),
    ensures
        parent(paths.platform, paths.path(suffix)) == paths.folder,
        file_name(paths.platform, paths.path(suffix)) == paths.name + suffix + seq!['.']
            + paths.platform.extension(),
{
    reveal_strlit("_hot_in_use");
    reveal_strlit("_main_in_use");
    let platform = paths.platform;
    let file = paths.name + suffix + seq!['.'] + platform.extension();
    assert(is_file_name(platform, suffix));
    assert forall|i: int| 0 <= i < file.len() implies !platform.separators().contains(
        #[trigger] file[i],
    ) by {
        let c = file[i];
        if i < paths.name.len() {
            assert(c == paths.name[i]);
        } else if i < paths.name.len() + suffix.len() {
            assert(c == suffix[i - paths.name.len()]);
        } else if i == paths.name.len() + suffix.len() {
            assert(c == '.');
        } else {
            assert(c == platform.extension()[i - paths.name.len() - suffix.len() - 1]);
        }
    }
    join_splits_back(platform, paths.folder, file);
}

/// For the executable `exe_name` in `folder`, and no base name given, the
/// paths are those of the library `lib_` and the executable's stem, in that
/// same folder.
pub proof fn default_paths_follow_executable(
    platform: Platform,
    folder: Seq<char>,
    exe_name: Seq<char>,
)
    requires
        is_folder(platform, folder),
        is_file_name(platform, exe_name),
        exe_name.len() > 0,
    ensures
        resolve(None, Some(join(platform, folder, exe_name)), platform) == Some(
            LibPathSetView { folder, name: default_prefix() + file_stem(exe_name), platform },
        ),
        is_file_name(platform, default_prefix() + file_stem(exe_name)),
{
    reveal_strlit("lib_");
    join_splits_back(platform, folder, exe_name);
    after_last_is_last(exe_name, seq!['.']);
    let stem = file_stem(exe_name);
    let name = default_prefix() + stem;
    assert forall|i: int| 0 <= i < name.len() implies !platform.separators().contains(
        #[trigger] name[i],
    ) by {
        separators_are(platform, name[i]);
        if i >= 4 {
            assert(name[i] == stem[i - 4]);
            assert(stem[i - 4] == exe_name[i - 4]);
        }
    }
}

/// The text of an optional string.
pub open spec fn text_of(s: Option<String>) -> Option<Seq<char>> {
    match s {
        Some(s) => Some(s@),
        None => None,
    }
}

/// The text of an optional string slice.
pub open spec fn str_text_of(s: Option<&str>) -> Option<Seq<char>> {
    match s {
        Some(s) => Some(s@),
        None => None,
    }
}

impl View for LibPathSet {
    type V = LibPathSetView;

    closed spec fn view(&self) -> LibPathSetView {
        LibPathSetView { folder: self.folder@, name: self.name@, platform: self.platform }
    }
}

/// Cuts a path at its last separator into folder and file name. There is no
/// result when the path names no file: when it is empty or ends in a
/// separator.
pub fn split_path(platform: Platform, path: &str) -> (r: Option<(&str, &str)>)
    ensures
        match r {
            None => file_name(platform, path@).len() == 0,
            Some((folder, file)) => folder@ == parent(platform, path@) && file@ == file_name(
                platform,
                path@,
            ) && file@.len() > 0,
        },
{
    let len: usize = path.unicode_len();
    let cut: usize = find_after_last(path, platform.separators_text());
    if cut == len {
        return None;
    }
    let file = path.substring_char(cut, len);
    let folder = if cut <= 1 {
        path.substring_char(0, cut)
    } else {
        path.substring_char(0, cut - 1)
    };
    Some((folder, file))
}

/// A file name without its extension.
pub fn stem_of(name: &str) -> (r: &str)
    ensures
        r@ == file_stem(name@),
{
    proof {
        reveal_strlit(".");
        assert("."@ =~= seq!['.']);
    }
    let dot: usize = find_after_last(name, ".");
    if dot <= 1 {
        name
    } else {
        name.substring_char(0, dot - 1)
    }
}

/// `file` inside `folder`.
pub fn join_path(platform: Platform, folder: &str, file: &str) -> (r: String)
    ensures
        r@ == join(platform, folder@, file@),
{
    let n: usize = folder.unicode_len();
    let mut r = String::from_str(folder);
    if n > 0 && !is_one_of(platform.separators_text(), folder.get_char(n - 1)) {
        r.append(platform.separator_text());
        assert(r@ =~= folder@.push(platform.separator()));
    }
    r.append(file);
    r
}

impl LibPathSet {
    /// Derives the paths from the path of the running executable. The base
    /// name is `library_name` where given, else `lib_` and the executable's
    /// file stem. There is no result when the executable's path is unknown or
    /// names no file.
    pub fn new(library_name: Option<String>, executable: Option<&str>, platform: Platform) -> (r:
        Option<LibPathSet>)
        ensures
            match r {
                Some(paths) => resolve(text_of(library_name), str_text_of(executable), platform)
                    == Some(paths@),
                None => resolve(text_of(library_name), str_text_of(executable), platform) is None,
            },
    {
        let exe = match executable {
            None => {
                return None;
            },
            Some(exe) => exe,
        };
        let (folder, file) = match split_path(platform, exe) {
            None => {
                return None;
            },
            Some(parts) => parts,
        };
        let name = match library_name {
            Some(name) => name,
            None => concat2("lib_", stem_of(file)),
        };
        Some(LibPathSet { folder: String::from_str(folder), name, platform })
    }

    /// The folder that holds the artifact.
    pub fn folder(&self) -> (r: &str)
        ensures
            r@ == self@.folder,
    {
        self.folder.as_str()
    }

    /// The base name of the library.
    pub fn name(&self) -> (r: &str)
        ensures
            r@ == self@.name,
    {
        self.name.as_str()
    }

    /// The extension of the artifact and its copies, without the dot.
    pub fn extension(&self) -> (r: &'static str)
        ensures
            r@ == self@.platform.extension(),
    {
        self.platform.extension_text()
    }

    /// The platform the paths are written for.
    pub fn platform(&self) -> (r: Platform)
        ensures
            r == self@.platform,
    {
        self.platform
    }

    /// The path of the artifact whose base name carries `suffix`.
    fn path_with(&self, suffix: &str) -> (r: String)
        ensures
            r@ == self@.path(suffix@),
    {
        let mut file = concat2(self.name.as_str(), suffix);
        proof {
            reveal_strlit(".");
            assert("."@ =~= seq!['.']);
        }
        file.append(".");
        file.append(self.platform.extension_text());
        join_path(self.platform, self.folder.as_str(), file.as_str())
    }

    /// File path the compiler outputs to.
    pub fn lib_file_path(&self) -> (r: String)
        ensures
            r@ == self@.lib_file(),
    {
        proof {
            reveal_strlit("");
            assert(""@ =~= Seq::<char>::empty());
        }
        self.path_with("")
    }

    /// File path copied to for hot reloads.
    pub fn hot_in_use_file_path(&self) -> (r: String)
        ensures
            r@ == self@.hot_in_use_file(),
    {
        self.path_with("_hot_in_use")
    }

    /// File path copied to for the initial run.
    pub fn main_in_use_file_path(&self) -> (r: String)
        ensures
            r@ == self@.main_in_use_file(),
    {
        self.path_with("_main_in_use")
    }
}

} // verus!
