//! Tests for the request catalogue: each operation's method, URL and body.

use smartschool::client::Client;
use smartschool::error::Error;
use smartschool::http::{classify_status, Body, Method};
use smartschool::mydoc::{
    self, CustomFolderId, FileId, FolderColor, FolderId, RevisionId, Template,
};
use smartschool::serde::Json;
use smartschool::uuid::Uuid;

const BASE: &str = "https://myschool.example";
const ID: u128 = 0x0123_4567_89ab_cdef_0123_4567_89ab_cdef;
const ID_STR: &str = "01234567-89ab-cdef-0123-456789abcdef";

fn client() -> Client {
    Client::login_outcome(BASE, true).unwrap()
}

#[test]
fn folder_contents_of_root_has_no_suffix() {
    let r = mydoc::get_folder_contents(&client(), FolderId::Root);
    assert_eq!(r.method, Method::Get);
    assert_eq!(r.url, format!("{}/mydoc/api/v1/directory-listing", BASE));
    assert!(matches!(r.body, Body::Empty));
}

#[test]
fn folder_contents_of_custom_folder_appends_its_identifier() {
    let id = FolderId::Custom(CustomFolderId(Uuid(ID)));
    let r = mydoc::get_folder_contents(&client(), id);
    assert_eq!(
        r.url,
        format!("{}/mydoc/api/v1/directory-listing/{}", BASE, ID_STR)
    );
}

#[test]
fn folder_contents_of_pseudo_folders_append_their_tokens() {
    let r = mydoc::get_folder_contents(&client(), FolderId::Favorites);
    assert_eq!(
        r.url,
        format!("{}/mydoc/api/v1/directory-listing/favourites", BASE)
    );
    let r = mydoc::get_folder_contents(&client(), FolderId::Trashed);
    assert_eq!(
        r.url,
        format!("{}/mydoc/api/v1/directory-listing/trashed", BASE)
    );
}

#[test]
fn copy_file_posts_parent_id() {
    let r = mydoc::copy_file(&client(), FileId(Uuid(ID)), FolderId::Root);
    assert_eq!(r.method, Method::Post);
    assert_eq!(r.url, format!("{}/mydoc/api/v1/files/{}/copy", BASE, ID_STR));
    match r.body {
        Body::Json(f) => {
            assert_eq!(f.len(), 1);
            assert_eq!(f[0].0, "parentId");
            assert!(matches!(f[0].1, Json::FolderId(FolderId::Root)));
        }
        _ => panic!("expected a JSON body"),
    }
}

#[test]
fn copy_folder_url_uses_folders_path() {
    let r = mydoc::copy_folder(&client(), CustomFolderId(Uuid(ID)), FolderId::Root);
    assert_eq!(
        r.url,
        format!("{}/mydoc/api/v1/folders/{}/copy", BASE, ID_STR)
    );
}

#[test]
fn move_and_rename_and_restore_urls() {
    let c = client();
    let fid = FileId(Uuid(ID));
    let did = CustomFolderId(Uuid(ID));
    assert_eq!(
        mydoc::move_file(&c, fid, FolderId::Root).url,
        format!("{}/mydoc/api/v1/files/{}/move", BASE, ID_STR)
    );
    assert_eq!(
        mydoc::move_folder(&c, did, FolderId::Root).url,
        format!("{}/mydoc/api/v1/folders/{}/move", BASE, ID_STR)
    );
    assert_eq!(
        mydoc::rename_file(&c, fid, "new").url,
        format!("{}/mydoc/api/v1/files/{}/rename", BASE, ID_STR)
    );
    assert_eq!(
        mydoc::rename_folder(&c, did, "new").url,
        format!("{}/mydoc/api/v1/folders/{}/rename", BASE, ID_STR)
    );
    assert_eq!(
        mydoc::restore_file(&c, fid, FolderId::Root).url,
        format!("{}/mydoc/api/v1/files/{}/restore", BASE, ID_STR)
    );
    assert_eq!(
        mydoc::restore_folder(&c, did, FolderId::Root).url,
        format!("{}/mydoc/api/v1/folders/{}/restore", BASE, ID_STR)
    );
}

#[test]
fn rename_file_posts_new_name() {
    let r = mydoc::rename_file(&client(), FileId(Uuid(ID)), "report.txt");
    match r.body {
        Body::Json(f) => {
            assert_eq!(f.len(), 1);
            assert_eq!(f[0].0, "newName");
            match &f[0].1 {
                Json::Str(s) => assert_eq!(s, "report.txt"),
                _ => panic!("expected a string value"),
            }
        }
        _ => panic!("expected a JSON body"),
    }
}

#[test]
fn delete_uses_delete_method_and_bare_path() {
    let r = mydoc::delete_file(&client(), FileId(Uuid(ID)));
    assert_eq!(r.method, Method::Delete);
    assert_eq!(r.url, format!("{}/mydoc/api/v1/files/{}", BASE, ID_STR));
    let r = mydoc::delete_folder(&client(), CustomFolderId(Uuid(ID)));
    assert_eq!(r.method, Method::Delete);
    assert_eq!(r.url, format!("{}/mydoc/api/v1/folders/{}", BASE, ID_STR));
}

#[test]
fn trash_and_favorite_urls() {
    let c = client();
    assert_eq!(
        mydoc::trash_file(&c, FileId(Uuid(ID))).url,
        format!("{}/mydoc/api/v1/files/{}/trash", BASE, ID_STR)
    );
    assert_eq!(
        mydoc::trash_folder(&c, CustomFolderId(Uuid(ID))).url,
        format!("{}/mydoc/api/v1/folders/{}/trash", BASE, ID_STR)
    );
    assert_eq!(
        mydoc::mark_file_as_favorite(&c, FileId(Uuid(ID))).url,
        format!("{}/mydoc/api/v1/files/{}/mark-as-favourite", BASE, ID_STR)
    );
    assert_eq!(
        mydoc::unmark_file_as_favorite(&c, FileId(Uuid(ID))).url,
        format!("{}/mydoc/api/v1/files/{}/unmark-as-favourite", BASE, ID_STR)
    );
    assert_eq!(
        mydoc::mark_folder_as_favorite(&c, CustomFolderId(Uuid(ID))).url,
        format!("{}/mydoc/api/v1/folders/{}/mark-as-favourite", BASE, ID_STR)
    );
    assert_eq!(
        mydoc::unmark_folder_as_favorite(&c, CustomFolderId(Uuid(ID))).url,
        format!("{}/mydoc/api/v1/folders/{}/unmark-as-favourite", BASE, ID_STR)
    );
}

#[test]
fn revision_urls_carry_both_identifiers() {
    let c = client();
    let other: u128 = 0xffff_0000_1111_2222_3333_4444_5555_6666;
    let other_str = "ffff0000-1111-2222-3333-444455556666";
    let r = mydoc::download_revision(&c, FileId(Uuid(ID)), RevisionId(Uuid(other)));
    assert_eq!(
        r.url,
        format!(
            "{}/mydoc/api/v1/files/{}/revisions/{}/download",
            BASE, ID_STR, other_str
        )
    );
    let r = mydoc::restore_revision(&c, FileId(Uuid(ID)), RevisionId(Uuid(other)));
    assert_eq!(r.method, Method::Post);
    assert_eq!(
        r.url,
        format!(
            "{}/mydoc/api/v1/files/{}/revisions/{}/restore",
            BASE, ID_STR, other_str
        )
    );
}

#[test]
fn history_and_listing_urls() {
    let c = client();
    assert_eq!(
        mydoc::get_file_history(&c, FileId(Uuid(ID))).url,
        format!("{}/mydoc/api/v1/files/{}/history", BASE, ID_STR)
    );
    assert_eq!(
        mydoc::get_file_revisions(&c, FileId(Uuid(ID))).url,
        format!("{}/mydoc/api/v1/files/{}/revisions", BASE, ID_STR)
    );
    assert_eq!(
        mydoc::get_folder_history(&c, CustomFolderId(Uuid(ID))).url,
        format!("{}/mydoc/api/v1/folders/{}/history", BASE, ID_STR)
    );
    assert_eq!(
        mydoc::get_folder_parents(&c, CustomFolderId(Uuid(ID))).url,
        format!("{}/mydoc/api/v1/folders/{}/parents", BASE, ID_STR)
    );
    assert_eq!(
        mydoc::get_recent_files(&c).url,
        format!("{}/mydoc/api/v1/files/recent", BASE)
    );
    assert_eq!(
        mydoc::download_file(&c, FileId(Uuid(ID))).url,
        format!("{}/mydoc/api/v1/files/{}/download", BASE, ID_STR)
    );
}

#[test]
fn change_folder_color_posts_new_color() {
    let r = mydoc::change_folder_color(&client(), CustomFolderId(Uuid(ID)), FolderColor::Blue);
    assert_eq!(
        r.url,
        format!("{}/mydoc/api/v1/folders/{}/change-color", BASE, ID_STR)
    );
    match r.body {
        Body::Json(f) => {
            assert_eq!(f.len(), 1);
            assert_eq!(f[0].0, "newColor");
            assert!(matches!(f[0].1, Json::FolderColor(FolderColor::Blue)));
        }
        _ => panic!("expected a JSON body"),
    }
}

#[test]
fn create_folder_posts_color_name_and_parent() {
    let r = mydoc::create_folder(&client(), FolderId::Root, "homework", FolderColor::Red);
    assert_eq!(r.method, Method::Post);
    assert_eq!(r.url, format!("{}/mydoc/api/v1/folders/", BASE));
    match r.body {
        Body::Json(f) => {
            assert_eq!(f.len(), 3);
            assert_eq!(f[0].0, "color");
            assert!(matches!(f[0].1, Json::FolderColor(FolderColor::Red)));
            assert_eq!(f[1].0, "name");
            match &f[1].1 {
                Json::Str(s) => assert_eq!(s, "homework"),
                _ => panic!("expected a string value"),
            }
            assert_eq!(f[2].0, "parentId");
            assert!(matches!(f[2].1, Json::FolderId(FolderId::Root)));
        }
        _ => panic!("expected a JSON body"),
    }
}

#[test]
fn create_file_from_standard_template() {
    let r = mydoc::create_file_from_template(&client(), FolderId::Root, "essay", Template::Word);
    assert_eq!(
        r.url,
        format!("{}/mydoc/api/v1/files/createfromtemplate", BASE)
    );
    match r.body {
        Body::Json(f) => {
            assert_eq!(f.len(), 3);
            assert_eq!(f[0].0, "fileName");
            assert_eq!(f[2].0, "templateType");
            match &f[2].1 {
                Json::Str(s) => assert_eq!(s, "word"),
                _ => panic!("expected a string value"),
            }
        }
        _ => panic!("expected a JSON body"),
    }
}

#[test]
fn create_file_from_custom_template_adds_reference() {
    let r = mydoc::create_file_from_template(
        &client(),
        FolderId::Root,
        "essay",
        Template::Custom("tpl-42"),
    );
    match r.body {
        Body::Json(f) => {
            assert_eq!(f.len(), 4);
            match &f[2].1 {
                Json::Str(s) => assert_eq!(s, "template"),
                _ => panic!("expected a string value"),
            }
            assert_eq!(f[3].0, "templateReference");
            match &f[3].1 {
                Json::Str(s) => assert_eq!(s, "tpl-42"),
                _ => panic!("expected a string value"),
            }
        }
        _ => panic!("expected a JSON body"),
    }
}

#[test]
fn template_wire_names() {
    assert_eq!(Template::Word.as_str(), "word");
    assert_eq!(Template::Excel.as_str(), "excel");
    assert_eq!(Template::PowerPoint.as_str(), "powerpoint");
    assert_eq!(Template::Custom("anything").as_str(), "template");
}

#[test]
fn folder_color_wire_names_and_default() {
    assert_eq!(FolderColor::Aqua.as_str(), "aqua");
    assert_eq!(FolderColor::Yellow.as_str(), "yellow");
    assert_eq!(FolderColor::default(), FolderColor::Yellow);
}

#[test]
fn status_classification_boundaries() {
    assert_eq!(classify_status(200), Ok(()));
    assert_eq!(classify_status(302), Ok(()));
    assert_eq!(classify_status(399), Ok(()));
    assert_eq!(classify_status(400), Err(Error::HttpStatus(400)));
    assert_eq!(classify_status(404), Err(Error::HttpStatus(404)));
    assert_eq!(classify_status(500), Err(Error::HttpStatus(500)));
    assert_eq!(classify_status(599), Err(Error::HttpStatus(599)));
    assert_eq!(classify_status(600), Ok(()));
}

#[test]
fn nonexistent_resource_statuses_become_http_status_errors() {
    // the platform answers an operation on a missing resource with a 4xx
    // status; classification must surface it, never an empty success
    for status in [400u16, 403, 404, 410] {
        assert_eq!(classify_status(status), Err(Error::HttpStatus(status)));
    }
}
