use gantt_page::chart::{Chart, PageContext, Section};
use gantt_page::endpoint::{
    collect_charts, folder_name, page_context, response_body, server_index, Scan, SourceFile,
};
use gantt_page::error::PageError;
use gantt_page::renderer::IndexTemplate;

const HEAD: &str =
    "<!DOCTYPE html>\n<html>\n<head>\n<meta charset=\"utf-8\">\n<title>gantt</title>\n</head>\n<body>\n";
const TAIL: &str = "</body>\n</html>\n";

const ALPHA: &str = "title = \"Alpha\"\n\n[[sections]]\nname = \"S1\"\ncontent = \"c1\"\n";
const BETA: &str = "title = \"Beta\"\nsections = []\n";

fn file(name: &str, content: &str) -> SourceFile {
    SourceFile {
        path: format!("/home/me/Desktop/gantt/{}", name),
        file_name: String::from(name),
        content: Some(String::from(content)),
    }
}

fn unreadable(name: &str) -> SourceFile {
    SourceFile {
        path: format!("/home/me/Desktop/gantt/{}", name),
        file_name: String::from(name),
        content: None,
    }
}

fn framed(body: &str) -> String {
    format!("{}{}{}", HEAD, body, TAIL)
}

fn alpha() -> Chart {
    Chart {
        title: String::from("Alpha"),
        sections: vec![Section { name: String::from("S1"), content: String::from("c1") }],
    }
}

fn beta() -> Chart {
    Chart { title: String::from("Beta"), sections: vec![] }
}

fn listing() -> IndexTemplate {
    IndexTemplate::compile().unwrap()
}

#[test]
fn the_chart_folder_is_gantt() {
    assert_eq!(folder_name(), "gantt");
}

#[test]
fn a_missing_desktop_is_reported() {
    assert_eq!(page_context(&Scan::MissingDesktop), Err(PageError::MissingBaseDirectory));
    let page = server_index(&listing(), &Scan::MissingDesktop);
    assert_eq!(page, Err(PageError::MissingBaseDirectory));
    assert_eq!(response_body(page), "デスクトップが見つかりませんでした。");
}

#[test]
fn a_missing_folder_is_reported_and_no_chart_is_shown() {
    assert_eq!(
        page_context(&Scan::MissingFolder),
        Err(PageError::TargetDirectoryNotFound(String::from("gantt")))
    );
    let page = server_index(&listing(), &Scan::MissingFolder);
    assert_eq!(page, Err(PageError::TargetDirectoryNotFound(String::from("gantt"))));
    let body = response_body(page);
    assert_eq!(body, "デスクトップにganttフォルダが見つかりませんでした。");
    assert!(!body.contains("<h1>"));
}

#[test]
fn an_empty_folder_is_a_page_without_charts() {
    let scan = Scan::Files(vec![]);
    assert_eq!(collect_charts(&vec![]), Ok(vec![]));
    assert_eq!(page_context(&scan), Ok(PageContext { charts: vec![] }));
    let page = server_index(&listing(), &scan);
    assert_eq!(page, Ok(framed("")));
    assert_eq!(
        response_body(page),
        "<!DOCTYPE html>\n<html>\n<head>\n<meta charset=\"utf-8\">\n<title>gantt</title>\n</head>\n<body>\n</body>\n</html>\n"
    );
}

#[test]
fn the_page_lists_alpha_before_beta() {
    let scan = Scan::Files(vec![file("a.toml", ALPHA), file("b.toml", BETA)]);
    assert_eq!(page_context(&scan), Ok(PageContext { charts: vec![alpha(), beta()] }));
    let body = response_body(server_index(&listing(), &scan));
    assert_eq!(
        body,
        framed(
            "<section>\n<h1>Alpha</h1>\n<h2>S1</h2>\n<pre>c1</pre>\n</section>\n<section>\n<h1>Beta</h1>\n</section>\n"
        )
    );
    assert!(body.find("Alpha").unwrap() < body.find("Beta").unwrap());
    assert!(body.ends_with("<h1>Beta</h1>\n</section>\n</body>\n</html>\n"));
    assert_eq!(body.matches("<h2>").count(), 1);
}

#[test]
fn the_order_of_the_listing_does_not_matter() {
    let forward = Scan::Files(vec![file("a.toml", ALPHA), file("b.toml", BETA)]);
    let backward = Scan::Files(vec![file("b.toml", BETA), file("a.toml", ALPHA)]);
    assert_eq!(page_context(&backward), page_context(&forward));
    assert_eq!(server_index(&listing(), &backward), server_index(&listing(), &forward));
    assert_eq!(page_context(&backward), Ok(PageContext { charts: vec![alpha(), beta()] }));
}

#[test]
fn the_order_is_that_of_the_file_names() {
    let scan = Scan::Files(vec![file("1-beta.toml", BETA), file("2-alpha.toml", ALPHA)]);
    assert_eq!(page_context(&scan), Ok(PageContext { charts: vec![beta(), alpha()] }));
}

#[test]
fn files_are_paired_with_their_names_in_the_given_order() {
    let files = vec![file("b.toml", BETA), file("a.toml", ALPHA)];
    assert_eq!(
        collect_charts(&files),
        Ok(vec![(String::from("b.toml"), beta()), (String::from("a.toml"), alpha())])
    );
}

#[test]
fn one_malformed_file_fails_the_page_and_is_named() {
    let scan = Scan::Files(vec![
        file("a.toml", ALPHA),
        file("broken.toml", "title = \"No sections\"\n"),
        file("b.toml", BETA),
    ]);
    let failure = PageError::ParseError(String::from("/home/me/Desktop/gantt/broken.toml"));
    assert_eq!(page_context(&scan), Err(failure.clone()));
    let page = server_index(&listing(), &scan);
    assert_eq!(page, Err(failure));
    let body = response_body(page);
    assert_eq!(body, "/home/me/Desktop/gantt/broken.tomlのフォーマットが正確ではありません。");
    assert!(!body.contains("Alpha"));
    assert!(!body.contains("Beta"));
}

#[test]
fn the_first_malformed_file_in_the_listing_is_the_one_named() {
    let scan = Scan::Files(vec![
        file("z.toml", "not toml at all"),
        file("a.toml", "title = 1\nsections = []\n"),
    ]);
    assert_eq!(
        page_context(&scan),
        Err(PageError::ParseError(String::from("/home/me/Desktop/gantt/z.toml")))
    );
    match &scan {
        Scan::Files(files) => assert_eq!(
            collect_charts(files),
            Err(PageError::ParseError(String::from("/home/me/Desktop/gantt/z.toml")))
        ),
        _ => unreachable!(),
    }
}

#[test]
fn an_unreadable_file_fails_the_page_and_is_named() {
    let scan = Scan::Files(vec![file("a.toml", ALPHA), unreadable("locked.toml"), file("b.toml", BETA)]);
    let failure = PageError::FileReadError(String::from("/home/me/Desktop/gantt/locked.toml"));
    assert_eq!(page_context(&scan), Err(failure.clone()));
    let page = server_index(&listing(), &scan);
    assert_eq!(page, Err(failure));
    let body = response_body(page);
    assert_eq!(body, "/home/me/Desktop/gantt/locked.tomlを読み込めませんでした。");
    assert!(!body.contains("Alpha"));
}

#[test]
fn of_a_malformed_and_an_unreadable_file_the_first_in_the_listing_is_reported() {
    let malformed_first = Scan::Files(vec![file("bad.toml", "title = 1"), unreadable("locked.toml")]);
    assert_eq!(
        page_context(&malformed_first),
        Err(PageError::ParseError(String::from("/home/me/Desktop/gantt/bad.toml")))
    );
    let unreadable_first = Scan::Files(vec![unreadable("locked.toml"), file("bad.toml", "title = 1")]);
    assert_eq!(
        page_context(&unreadable_first),
        Err(PageError::FileReadError(String::from("/home/me/Desktop/gantt/locked.toml")))
    );
}

#[test]
fn a_file_is_reported_by_its_path_not_by_its_name() {
    let odd = SourceFile {
        path: String::from("somewhere/else"),
        file_name: String::from("a.toml"),
        content: Some(String::from("?")),
    };
    assert_eq!(
        page_context(&Scan::Files(vec![odd])),
        Err(PageError::ParseError(String::from("somewhere/else")))
    );
}

#[test]
fn a_malformed_file_is_reported_and_the_template_is_not_tried() {
    let page = server_index(&listing(), &Scan::Files(vec![file("a.toml", "x")]));
    assert_eq!(page, Err(PageError::ParseError(String::from("/home/me/Desktop/gantt/a.toml"))));
}

#[test]
fn a_title_of_combined_characters_is_shown() {
    let source = "title = \"e\\u0301 a\\u0310\"\nsections = [{ name = \"o\\u0308\", content = \"x\\r\\ny\" }]\n";
    let body = response_body(server_index(&listing(), &Scan::Files(vec![file("a.toml", source)])));
    assert_eq!(
        body,
        framed("<section>\n<h1>e\u{301} a\u{310}</h1>\n<h2>o\u{308}</h2>\n<pre>x\r\ny</pre>\n</section>\n")
    );
}

#[test]
fn the_body_of_a_page_is_the_page() {
    assert_eq!(response_body(Ok(String::from("<html></html>"))), "<html></html>");
    assert_eq!(
        response_body(Err(PageError::Template(String::from("d")))),
        "生成が失敗しました。error:d"
    );
    assert_eq!(response_body(Ok(String::new())), "");
}
