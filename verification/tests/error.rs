use gantt_page::error::{MessageCatalog, PageError, Phrase};

#[test]
fn reports_a_missing_desktop() {
    assert_eq!(PageError::MissingBaseDirectory.message(), "デスクトップが見つかりませんでした。");
}

#[test]
fn reports_a_missing_folder_by_its_name() {
    assert_eq!(
        PageError::TargetDirectoryNotFound(String::from("gantt")).message(),
        "デスクトップにganttフォルダが見つかりませんでした。"
    );
    assert_eq!(
        PageError::TargetDirectoryNotFound(String::new()).message(),
        "デスクトップにフォルダが見つかりませんでした。"
    );
}

#[test]
fn reports_a_malformed_file_by_its_path() {
    assert_eq!(
        PageError::ParseError(String::from("/home/me/Desktop/gantt/a.toml")).message(),
        "/home/me/Desktop/gantt/a.tomlのフォーマットが正確ではありません。"
    );
}

#[test]
fn reports_an_unreadable_file_by_its_path() {
    assert_eq!(
        PageError::FileReadError(String::from("/home/me/Desktop/gantt/a.toml")).message(),
        "/home/me/Desktop/gantt/a.tomlを読み込めませんでした。"
    );
}

#[test]
fn reports_a_template_failure_with_the_diagnostic() {
    assert_eq!(
        PageError::Template(String::from("Template 'index' not found")).message(),
        "生成が失敗しました。error:Template 'index' not found"
    );
}

fn english() -> MessageCatalog {
    MessageCatalog {
        template: Phrase { before: String::from("Rendering failed: "), after: String::from(".") },
        missing_base_directory: String::from("The desktop was not found."),
        target_directory_not_found: Phrase {
            before: String::from("Folder "),
            after: String::from(" was not found on the desktop."),
        },
        file_read_error: Phrase {
            before: String::from("The file at "),
            after: String::from(" could not be read."),
        },
        parse_error: Phrase {
            before: String::from("The file at "),
            after: String::from(" has an incorrect format."),
        },
    }
}

#[test]
fn a_phrase_is_filled_with_its_subject() {
    let phrase = Phrase { before: String::from("<"), after: String::from(">") };
    assert_eq!(phrase.about("x"), "<x>");
    assert_eq!(phrase.about(""), "<>");
}

#[test]
fn messages_follow_the_catalog() {
    let catalog = english();
    assert_eq!(
        PageError::MissingBaseDirectory.message_in(&catalog),
        "The desktop was not found."
    );
    assert_eq!(
        PageError::TargetDirectoryNotFound(String::from("gantt")).message_in(&catalog),
        "Folder gantt was not found on the desktop."
    );
    assert_eq!(
        PageError::ParseError(String::from("/d/a.toml")).message_in(&catalog),
        "The file at /d/a.toml has an incorrect format."
    );
    assert_eq!(
        PageError::FileReadError(String::from("/d/a.toml")).message_in(&catalog),
        "The file at /d/a.toml could not be read."
    );
    assert_eq!(
        PageError::Template(String::from("no template")).message_in(&catalog),
        "Rendering failed: no template."
    );
}

#[test]
fn the_message_is_the_japanese_one() {
    let japanese = MessageCatalog::japanese();
    let errors = [
        PageError::MissingBaseDirectory,
        PageError::TargetDirectoryNotFound(String::from("gantt")),
        PageError::FileReadError(String::from("a.toml")),
        PageError::ParseError(String::from("a.toml")),
        PageError::Template(String::from("d")),
    ];
    for error in errors {
        assert_eq!(error.message(), error.message_in(&japanese));
    }
}
