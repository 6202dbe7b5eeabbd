//! The failures of a page request and the text that reports each to the reader.

use vstd::prelude::*;
use vstd::string::*;

verus! {

/// Mathematical value of a [`PageError`].
pub enum PageErrorView {
    Template(Seq<char>),
    MissingBaseDirectory,
    TargetDirectoryNotFound(Seq<char>),
    FileReadError(Seq<char>),
    ParseError(Seq<char>),
}

/// Why a page could not be built.
#[derive(Debug, Clone, PartialEq, Eq)]
pub enum PageError {
    /// The template engine failed; holds the engine's diagnostic.
    Template(String),
    /// The platform could not resolve the desktop folder.
    MissingBaseDirectory,
    /// The named folder is absent from the desktop, or cannot be listed.
    TargetDirectoryNotFound(String),
    /// The file at this path could not be read.
    FileReadError(String),
    /// The file at this path is not a chart.
    ParseError(String),
}

impl View for PageError {
    type V = PageErrorView;

    open spec fn view(&self) -> PageErrorView {
        match self {
            PageError::Template(diagnostic) => PageErrorView::Template(diagnostic@),
            PageError::MissingBaseDirectory => PageErrorView::MissingBaseDirectory,
            PageError::TargetDirectoryNotFound(folder) => PageErrorView::TargetDirectoryNotFound(
                folder@,
            ),
            PageError::FileReadError(path) => PageErrorView::FileReadError(path@),
            PageError::ParseError(path) => PageErrorView::ParseError(path@),
        }
    }
}

/// Mathematical value of a [`Phrase`].
pub struct PhraseView {
    pub before: Seq<char>,
    pub after: Seq<char>,
}

/// A message with a gap: the text before and the text after what the message
/// is about.
#[derive(Debug, Clone, PartialEq, Eq)]
pub struct Phrase {
    pub before: String,
    pub after: String,
}

impl View for Phrase {
    type V = PhraseView;

    open spec fn view(&self) -> PhraseView {
        PhraseView { before: self.before@, after: self.after@ }
    }
}

/// Mathematical value of a [`MessageCatalog`].
pub struct MessageCatalogView {
    pub template: PhraseView,
    pub missing_base_directory: Seq<char>,
    pub target_directory_not_found: PhraseView,
    pub file_read_error: PhraseView,
    pub parse_error: PhraseView,
}

/// The messages of one language, one for each kind of failure.
#[derive(Debug, Clone, PartialEq, Eq)]
pub struct MessageCatalog {
    /// Around the engine's diagnostic.
    pub template: Phrase,
    pub missing_base_directory: String,
    /// Around the folder's name.
    pub target_directory_not_found: Phrase,
    /// Around the file's path.
    pub file_read_error: Phrase,
    /// Around the file's path.
    pub parse_error: Phrase,
}

impl View for MessageCatalog {
    type V = MessageCatalogView;

    open spec fn view(&self) -> MessageCatalogView {
        MessageCatalogView {
            template: self.template@,
            missing_base_directory: self.missing_base_directory@,
            target_directory_not_found: self.target_directory_not_found@,
            file_read_error: self.file_read_error@,
            parse_error: self.parse_error@,
        }
    }
}

/// A phrase with its gap filled.
pub open spec fn phrase_about(phrase: PhraseView, subject: Seq<char>) -> Seq<char> {
    phrase.before + subject + phrase.after
}

/// The HTML fragment that reports a failure in the catalog's language.
pub open spec fn message_text_in(catalog: MessageCatalogView, error: PageErrorView) -> Seq<char> {
    match error {
        PageErrorView::Template(diagnostic) => phrase_about(catalog.template, diagnostic),
        PageErrorView::MissingBaseDirectory => catalog.missing_base_directory,
        PageErrorView::TargetDirectoryNotFound(folder) => phrase_about(
            catalog.target_directory_not_found,
            folder,
        ),
        PageErrorView::FileReadError(path) => phrase_about(catalog.file_read_error, path),
        PageErrorView::ParseError(path) => phrase_about(catalog.parse_error, path),
    }
}

/// The Japanese messages.
pub open spec fn japanese_messages() -> MessageCatalogView {
    MessageCatalogView {
        template: PhraseView { before: "生成が失敗しました。error:"@, after: ""@ },
        missing_base_directory: "デスクトップが見つかりませんでした。"@,
        target_directory_not_found: PhraseView {
            before: "デスクトップに"@,
            after: "フォルダが見つかりませんでした。"@,
        },
        file_read_error: PhraseView { before: ""@, after: "を読み込めませんでした。"@ },
        parse_error: PhraseView { before: ""@, after: "のフォーマットが正確ではありません。"@ },
    }
}

/// The HTML fragment shown to the reader for each failure.
pub open spec fn message_text(error: PageErrorView) -> Seq<char> {
    message_text_in(japanese_messages(), error)
}

impl Phrase {
    /// The phrase with its gap filled by `subject`.
    pub fn about(&self, subject: &str) -> (text: String)
        ensures
            text@ == phrase_about(self@, subject@),
    {
        String::from_str(self.before.as_str()).concat(subject).concat(self.after.as_str())
    }
}

impl MessageCatalog {
    /// The Japanese messages.
    pub fn japanese() -> (catalog: MessageCatalog)
        ensures
            catalog@ == japanese_messages(),
    {
        MessageCatalog {
            template: Phrase {
                before: String::from_str("生成が失敗しました。error:"),
                after: String::from_str(""),
            },
            missing_base_directory: String::from_str("デスクトップが見つかりませんでした。"),
            target_directory_not_found: Phrase {
                before: String::from_str("デスクトップに"),
                after: String::from_str("フォルダが見つかりませんでした。"),
            },
            file_read_error: Phrase {
                before: String::from_str(""),
                after: String::from_str("を読み込めませんでした。"),
            },
            parse_error: Phrase {
                before: String::from_str(""),
                after: String::from_str("のフォーマットが正確ではありません。"),
            },
        }
    }
}

impl PageError {
    /// The HTML fragment that reports this failure in the catalog's language.
    pub fn message_in(&self, catalog: &MessageCatalog) -> (text: String)
        ensures
            text@ == message_text_in(catalog@, self@),
    {
        match self {
            PageError::Template(diagnostic) => catalog.template.about(diagnostic.as_str()),
            PageError::MissingBaseDirectory => catalog.missing_base_directory.clone(),
            PageError::TargetDirectoryNotFound(folder) => {
                catalog.target_directory_not_found.about(folder.as_str())
            },
            PageError::FileReadError(path) => catalog.file_read_error.about(path.as_str()),
            PageError::ParseError(path) => catalog.parse_error.about(path.as_str()),
        }
    }

    /// The HTML fragment that reports this failure.
    pub fn message(&self) -> (text: String)
        ensures
            text@ == message_text(self@),
    {
        self.message_in(&MessageCatalog::japanese())
    }
}

/// The Japanese message of a missing folder names the folder, those of an
/// unreadable and of a malformed file start with the file's path, and that of
/// a template failure ends with the engine's diagnostic.
pub proof fn lemma_message_names_its_subject(subject: Seq<char>)
    ensures
        message_text(PageErrorView::TargetDirectoryNotFound(subject)) == "デスクトップに"@ + subject
            + "フォルダが見つかりませんでした。"@,
        message_text(PageErrorView::FileReadError(subject)) == subject + "を読み込めませんでした。"@,
        message_text(PageErrorView::ParseError(subject)) == subject
            + "のフォーマットが正確ではありません。"@,
        message_text(PageErrorView::Template(subject)) == "生成が失敗しました。error:"@ + subject,
{
    reveal_strlit("");
    assert(""@ =~= Seq::<char>::empty());
    assert(""@ + subject =~= subject);
    assert("生成が失敗しました。error:"@ + subject + ""@ =~= "生成が失敗しました。error:"@ + subject);
}

} // verus!
