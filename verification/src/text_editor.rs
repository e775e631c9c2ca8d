//! Text documents shown in the text editor panel, and the editor's cursor
//! position arithmetic.

use vstd::prelude::*;

verus! {

/// The character encoding a document is saved in.
#[derive(Debug, Clone, Copy, PartialEq, Eq, Structural)]
pub enum TextEncoding {
    Utf8,
    ShiftJis,
}

impl TextEncoding {
    /// The encoding's display name.
    pub fn label(self) -> (r: &'static str)
        ensures
            self == TextEncoding::Utf8 ==> r@ == "UTF-8"@,
            self == TextEncoding::ShiftJis ==> r@ == "Shift_JIS"@,
    {
        match self {
            TextEncoding::Utf8 => "UTF-8",
            TextEncoding::ShiftJis => "Shift_JIS",
        }
    }
}

/// A document open in a text editor panel.
#[derive(Debug, Clone)]
pub struct TextDocument {
    pub id: String,
    pub display_name: String,
    pub text: String,
    pub read_only: bool,
    pub modified: bool,
    pub language_hint: Option<String>,
    pub encoding: TextEncoding,
}

impl TextDocument {
    /// An editable, unmodified UTF-8 document without a language hint.
    pub fn new(id: &str, display_name: &str, text: &str) -> (r: Self)
        ensures
            r.id@ == id@,
            r.display_name@ == display_name@,
            r.text@ == text@,
            !r.read_only,
            !r.modified,
            r.language_hint is None,
            r.encoding == TextEncoding::Utf8,
    {
        TextDocument {
            id: id.to_owned(),
            display_name: display_name.to_owned(),
            text: text.to_owned(),
            read_only: false,
            modified: false,
            language_hint: None,
            encoding: TextEncoding::Utf8,
        }
    }

    /// The same document, read-only as `read_only` says.
    pub fn read_only(self, read_only: bool) -> (r: Self)
        ensures
            r == (TextDocument { read_only, ..self }),
    {
        let mut d = self;
        d.read_only = read_only;
        d
    }

    /// The same document with the language hint `language`.
    pub fn language_hint(self, language: &str) -> (r: Self)
        ensures
            r.language_hint matches Some(l) && l@ == language@,
            r.id == self.id,
            r.display_name == self.display_name,
            r.text == self.text,
            r.read_only == self.read_only,
            r.modified == self.modified,
            r.encoding == self.encoding,
    {
        let mut d = self;
        d.language_hint = Some(language.to_owned());
        d
    }

    /// The same document in the encoding `encoding`.
    pub fn encoding(self, encoding: TextEncoding) -> (r: Self)
        ensures
            r == (TextDocument { encoding, ..self }),
    {
        let mut d = self;
        d.encoding = encoding;
        d
    }
}

/// Display options of a text editor panel.
#[derive(Debug, Clone, Copy, PartialEq, Eq, Structural)]
pub struct TextEditorOptions {
    pub word_wrap: bool,
    pub ime_debug: bool,
}

impl Default for TextEditorOptions {
    fn default() -> (r: Self)
        ensures
            !r.word_wrap,
            !r.ime_debug,
    {
        TextEditorOptions { word_wrap: false, ime_debug: false }
    }
}

/// A request that the editor makes of the application.
#[derive(Debug, Clone, Copy, PartialEq, Eq, Structural)]
pub enum TextEditorAction {
    SaveRequested,
}

/// What happened in a text editor panel during one frame.
#[derive(Debug)]
pub struct TextEditorResponse {
    pub changed: bool,
    pub action: Option<TextEditorAction>,
    pub cursor_line: Option<usize>,
    pub cursor_column: Option<usize>,
}

impl Default for TextEditorResponse {
    fn default() -> (r: Self)
        ensures
            !r.changed,
            r.action is None,
            r.cursor_line is None,
            r.cursor_column is None,
    {
        TextEditorResponse { changed: false, action: None, cursor_line: None, cursor_column: None }
    }
}

/// The 1-based line and column at the end of `chars`: one line more than
/// the newlines of `chars`, and one column more than the characters after
/// the last newline.
pub open spec fn position_after(chars: Seq<char>) -> (nat, nat)
    decreases chars.len(),
{
    if chars.len() == 0 {
        (1, 1)
    } else {
        let (line, column) = position_after(chars.drop_last());
        if chars.last() == '\n' {
            (line + 1, 1)
        } else {
            (line, column + 1)
        }
    }
}

proof fn lemma_position_bound(chars: Seq<char>)
    ensures
        position_after(chars).0 + position_after(chars).1 <= chars.len() + 2,
        position_after(chars).0 >= 1,
        position_after(chars).1 >= 1,
    decreases chars.len(),
{
    if chars.len() > 0 {
        lemma_position_bound(chars.drop_last());
    }
}

/// The line of the position after `chars` is one more than the number of
/// newlines in `chars`.
pub proof fn law_line_counts_newlines(chars: Seq<char>)
    ensures
        position_after(chars).0 == 1 + chars.filter(|c: char| c == '\n').len(),
    decreases chars.len(),
{
    if chars.len() > 0 {
        law_line_counts_newlines(chars.drop_last());
        chars.drop_last().lemma_filter_push(chars.last(), |c: char| c == '\n');
        assert(chars.drop_last().push(chars.last()) =~= chars);
    }
}

/// The cursor position of the cursor placed before the character at `char_index` of
/// `text`.
pub open spec fn cursor_position(text: Seq<char>, char_index: usize) -> (nat, nat) {
    position_after(text.take(if char_index <= text.len() { char_index as int } else { text.len() as int }))
}

/// The 1-based line and column of the cursor placed before the character
/// at `char_index` of `text` (at the end when `char_index` is past it).
pub fn line_column(text: &str, char_index: usize) -> (r: (usize, usize))
    requires
        text@.len() < usize::MAX,
    ensures
        r.0 == cursor_position(text@, char_index).0,
        r.1 == cursor_position(text@, char_index).1,
{
    let mut line: usize = 1;
    let mut column: usize = 1;
    let mut i: usize = 0;
    let ghost chars = text@;
    for ch in it: text.chars()
        invariant
            chars == text@,
            chars.len() < usize::MAX,
            it.seq() == chars,
            i == it.index(),
            i <= chars.len(),
            (line as nat, column as nat) == position_after(
                chars.take(if i <= char_index { i as int } else { char_index as int }),
            ),
    {
        if i < char_index {
            proof {
                lemma_position_bound(chars.take(i as int));
                assert(chars.take(i + 1).drop_last() =~= chars.take(i as int));
                assert(chars.take(i + 1).last() == ch);
            }
            if ch == '\n' {
                line = line + 1;
                column = 1;
            } else {
                column = column + 1;
            }
        }
        i = i + 1;
    }
    (line, column)
}

/// Whether the save button of `document` is enabled: the document is
/// editable and has unsaved changes.
pub open spec fn save_enabled(document: TextDocument) -> bool {
    !document.read_only && document.modified
}

/// The save button is enabled exactly for an editable document with
/// unsaved changes: never for a read-only document, never for an unmodified
/// one.
pub proof fn law_save_only_editable_changes(document: TextDocument)
    ensures
        document.read_only ==> !save_enabled(document),
        !document.modified ==> !save_enabled(document),
        !document.read_only && document.modified ==> save_enabled(document),
{
}

/// Ends one frame of the editor: `save_clicked` tells whether the save
/// button was clicked, `edited` whether the text changed, and `cursor` the
/// character index of the cursor, if any.
///
/// A save is requested when the button was clicked while enabled (as it
/// was drawn, before this frame's edit); an edit marks the document
/// modified; the cursor index becomes a 1-based line and column.
pub fn finish_frame(document: &mut TextDocument, save_clicked: bool, edited: bool, cursor: Option<usize>) -> (r:
    TextEditorResponse)
    requires
        old(document).text@.len() < usize::MAX,
    ensures
        *final(document) == (TextDocument { modified: old(document).modified || edited, ..*old(document) }),
        r.changed == edited,
        r.action == if save_clicked && save_enabled(*old(document)) {
            Some(TextEditorAction::SaveRequested)
        } else {
            None
        },
        match cursor {
            Some(index) => {
                &&& r.cursor_line matches Some(line) && line == cursor_position(old(document).text@, index).0
                &&& r.cursor_column matches Some(column) && column == cursor_position(
                    old(document).text@,
                    index,
                ).1
            },
            None => r.cursor_line is None && r.cursor_column is None,
        },
{
    let action = if save_clicked && !document.read_only && document.modified {
        Some(TextEditorAction::SaveRequested)
    } else {
        None
    };
    if edited {
        document.modified = true;
    }
    let (cursor_line, cursor_column) = match cursor {
        Some(index) => {
            let (line, column) = line_column(document.text.as_str(), index);
            (Some(line), Some(column))
        },
        None => (None, None),
    };
    TextEditorResponse { changed: edited, action, cursor_line, cursor_column }
}

} // verus!
