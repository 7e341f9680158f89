//! Notes and the place each one has in the storage tree.

use vstd::prelude::*;

verus! {

/// A titled, language-tagged snippet, kept as one file.
#[derive(Debug)]
pub struct Note {
    pub file_path: String,
    pub title: String,
    pub language: String,
    pub contents: String,
}

/// The mathematical value of a [`Note`]: its four texts as sequences of
/// characters.
pub struct NoteView {
    pub file_path: Seq<char>,
    pub title: Seq<char>,
    pub language: Seq<char>,
    pub contents: Seq<char>,
}

impl View for Note {
    type V = NoteView;

    open spec fn view(&self) -> NoteView {
        NoteView {
            file_path: self.file_path@,
            title: self.title@,
            language: self.language@,
            contents: self.contents@,
        }
    }
}

impl Clone for Note {
    fn clone(&self) -> (copy: Self)
        ensures
            copy == *self,
    {
        Note {
            file_path: self.file_path.clone(),
            title: self.title.clone(),
            language: self.language.clone(),
            contents: self.contents.clone(),
        }
    }
}

/// The values of the notes of a list, in their order.
pub open spec fn note_views(items: Seq<Note>) -> Seq<NoteView> {
    Seq::new(items.len(), |i: int| items[i]@)
}

/// Where the note `(language, title)` is stored under `root`:
/// `root/language/title.md`.
pub open spec fn spec_note_path(root: Seq<char>, language: Seq<char>, title: Seq<char>) -> Seq<
    char,
> {
    root + seq!['/'] + language + seq!['/'] + title + seq!['.', 'm', 'd']
}

impl NoteView {
    /// Whether the note lies where its language and title put it under
    /// `root`. A note that was read from a file lies where the file's
    /// record says, which need not be that place.
    pub open spec fn is_placed_under(self, root: Seq<char>) -> bool {
        self.file_path == spec_note_path(root, self.language, self.title)
    }
}

/// The message under which a saved note is committed:
/// `update: <language>, <title>`.
pub open spec fn spec_commit_message(language: Seq<char>, title: Seq<char>) -> Seq<char> {
    "update: "@ + language + ", "@ + title
}

/// Where the last component of a path begins: behind its last `/`, or at
/// the start of a path that holds none.
pub open spec fn spec_component_start(path: Seq<char>) -> int
    decreases path.len(),
{
    if path.len() == 0 {
        0
    } else if path.last() == '/' {
        path.len() as int
    } else {
        spec_component_start(path.drop_last())
    }
}

/// The last component of a path: what follows its last `/`.
pub open spec fn spec_last_component(path: Seq<char>) -> Seq<char> {
    path.subrange(spec_component_start(path), path.len() as int)
}

/// The directory of a path: what precedes the `/` before its last
/// component. A path without a `/` has the empty directory.
pub open spec fn spec_directory(path: Seq<char>) -> Seq<char> {
    if spec_component_start(path) == 0 {
        Seq::empty()
    } else {
        path.subrange(0, spec_component_start(path) - 1)
    }
}

/// Whether a path names a note file: its last component has a name before
/// the extension and ends in `.md`.
pub open spec fn spec_is_note_file(path: Seq<char>) -> bool {
    let name = spec_last_component(path);
    name.len() > 3 && name.subrange(name.len() - 3, name.len() as int) == seq!['.', 'm', 'd']
}

/// The storage path of the note `(language, title)` under `base_path`. The
/// three texts are taken as they are, so the path depends on them alone.
pub fn derive_path(base_path: &str, language: &str, title: &str) -> (path: String)
    ensures
        path@ == spec_note_path(base_path@, language@, title@),
{
    proof {
        reveal_strlit("/");
        reveal_strlit(".md");
    }
    let mut path = base_path.to_owned();
    path.append("/");
    path.append(language);
    path.append("/");
    path.append(title);
    path.append(".md");
    path
}

impl Note {
    /// A note with the given texts, placed where `(language, title)` belongs
    /// under `base_path`.
    pub fn new(base_path: &str, language: &str, title: &str, contents: &str) -> (note: Note)
        ensures
            note@ == (NoteView {
                file_path: spec_note_path(base_path@, language@, title@),
                title: title@,
                language: language@,
                contents: contents@,
            }),
            note@.is_placed_under(base_path@),
    {
        Note {
            file_path: derive_path(base_path, language, title),
            language: language.to_owned(),
            title: title.to_owned(),
            contents: contents.to_owned(),
        }
    }

    /// The directory that holds the note's file.
    pub fn directory(&self) -> (directory: String)
        ensures
            directory@ == spec_directory(self.file_path@),
    {
        let path = self.file_path.as_str();
        let len: usize = path.unicode_len();
        let mut start: usize = len;
        assert(path@.subrange(0, len as int) =~= path@);
        while start > 0 && path.get_char(start - 1) != '/'
            invariant
                start <= len,
                len == path@.len(),
                spec_component_start(path@) == spec_component_start(
                    path@.subrange(0, start as int),
                ),
            decreases start,
        {
            assert(path@.subrange(0, start as int).drop_last() =~= path@.subrange(
                0,
                start - 1,
            ));
            start = start - 1;
        }
        if start == 0 {
            String::new()
        } else {
            path.substring_char(0, start - 1).to_owned()
        }
    }
}

/// Whether a path, as a directory walk yields it, names a note file.
pub fn is_note_file(path: &str) -> (is_note: bool)
    ensures
        is_note == spec_is_note_file(path@),
{
    let len: usize = path.unicode_len();
    proof {
        lemma_note_file_by_ending(path@);
    }
    len >= 4 && path.get_char(len - 4) != '/' && path.get_char(len - 3) == '.' && path.get_char(
        len - 2,
    ) == 'm' && path.get_char(len - 1) == 'd'
}

/// The commit message for a note that was saved.
pub fn commit_message(language: &str, title: &str) -> (message: String)
    ensures
        message@ == spec_commit_message(language@, title@),
{
    let mut message = "update: ".to_owned();
    message.append(language);
    message.append(", ");
    message.append(title);
    message
}

/// The last component starts inside the path, holds no `/`, and is
/// preceded by one unless it starts the path.
pub proof fn lemma_component_start(path: Seq<char>)
    ensures
        0 <= spec_component_start(path) <= path.len(),
        forall|i: int| spec_component_start(path) <= i < path.len() ==> path[i] != '/',
        spec_component_start(path) > 0 ==> path[spec_component_start(path) - 1] == '/',
    decreases path.len(),
{
    if path.len() > 0 && path.last() != '/' {
        lemma_component_start(path.drop_last());
        let start = spec_component_start(path);
        assert forall|i: int| start <= i < path.len() implies path[i] != '/' by {
            if i < path.len() - 1 {
                assert(path.drop_last()[i] == path[i]);
            }
        }
    }
}

/// A path names a note file exactly if it ends in `.md` and the character
/// before that ending exists and is not a `/`.
pub proof fn lemma_note_file_by_ending(path: Seq<char>)
    ensures
        spec_is_note_file(path) <==> (path.len() >= 4 && path[path.len() - 4] != '/'
            && path[path.len() - 3] == '.' && path[path.len() - 2] == 'm' && path[path.len() - 1]
            == 'd'),
{
    lemma_component_start(path);
    let len = path.len() as int;
    let name = spec_last_component(path);
    let start = spec_component_start(path);
    if len >= 4 && path[len - 4] != '/' && path[len - 3] == '.' && path[len - 2] == 'm'
        && path[len - 1] == 'd' {
        assert(start <= len - 4);
        assert(name.subrange(name.len() - 3, name.len() as int) =~= seq!['.', 'm', 'd']);
    }
}

/// The storage path of a note with a title names a note file in the
/// directory of its language under the root, and the file is named after
/// the title.
pub proof fn lemma_path_shape(root: Seq<char>, language: Seq<char>, title: Seq<char>)
    requires
        title.len() > 0,
        !title.contains('/'),
    ensures
        spec_is_note_file(spec_note_path(root, language, title)),
        spec_last_component(spec_note_path(root, language, title)) == title + seq!['.', 'm', 'd'],
        spec_directory(spec_note_path(root, language, title)) == root + seq!['/'] + language,
{
    let path = spec_note_path(root, language, title);
    let directory = root + seq!['/'] + language + seq!['/'];
    let name = title + seq!['.', 'm', 'd'];
    lemma_component_start(path);
    let start = spec_component_start(path);
    let cut = directory.len() as int;
    assert(path =~= directory + name);
    assert forall|i: int| cut <= i < path.len() implies path[i] != '/' by {
        if i - cut < title.len() {
            assert(title.contains(title[i - cut]));
        }
    }
    assert(start == cut) by {
        if start < cut {
            assert(path[cut - 1] != '/');
        }
    }
    assert(path.subrange(start, path.len() as int) =~= name);
    assert(path.subrange(0, start - 1) =~= root + seq!['/'] + language);
    assert(name.subrange(name.len() - 3, name.len() as int) =~= seq!['.', 'm', 'd']);
}

} // verus!
