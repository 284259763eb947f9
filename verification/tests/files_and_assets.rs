use kodegen_github::files::{check_file_size, is_git_dir, is_hidden, is_vendor_dir};
use kodegen_github::release_assets::{asset_to_replace, upload_names, AssetInfo};
use kodegen_github::results::{owner_of, repo_display_name, assemble_result, RepoListing};
use kodegen_github::ratio::Ratio;
use kodegen_github::scoring::fallback_local_scores;

#[test]
fn hidden_entries() {
    assert!(is_hidden(Some(".github")));
    assert!(is_hidden(Some(".")));
    assert!(!is_hidden(Some("src")));
    assert!(!is_hidden(Some("")));
    assert!(!is_hidden(None));
}

#[test]
fn git_and_vendor_directories() {
    assert!(is_git_dir(Some(".git")));
    assert!(!is_git_dir(Some(".github")));
    assert!(!is_git_dir(None));
    assert!(is_vendor_dir(Some("node_modules")));
    assert!(is_vendor_dir(Some("vendor")));
    assert!(is_vendor_dir(Some("target")));
    assert!(!is_vendor_dir(Some("src")));
    assert!(!is_vendor_dir(None));
}

#[test]
fn file_size_limit() {
    assert_eq!(check_file_size(10, 10), Ok(()));
    assert_eq!(
        check_file_size(10_485_761, 10_485_760),
        Err("File too large: 10485761 bytes (max: 10485760 bytes)".to_string())
    );
}

#[test]
fn upload_names_are_percent_encoded() {
    let (name, label) = upload_names("KodegenHelper.app-macos aarch64.zip", Some("Mac OS (arm)"));
    assert_eq!(name, "KodegenHelper.app-macos%20aarch64.zip");
    assert_eq!(label, Some("Mac%20OS%20%28arm%29".to_string()));
    let (plain, none) = upload_names("a_b~c-d.e", None);
    assert_eq!(plain, "a_b~c-d.e");
    assert_eq!(none, None);
    let (utf8, _) = upload_names("é/", None);
    assert_eq!(utf8, "%C3%A9%2F");
}

#[test]
fn the_first_asset_of_that_name_is_replaced() {
    let assets = vec![
        AssetInfo { id: 1, name: "a.zip".to_string() },
        AssetInfo { id: 2, name: "b.zip".to_string() },
        AssetInfo { id: 3, name: "b.zip".to_string() },
    ];
    assert_eq!(asset_to_replace(&assets, "b.zip"), Some(2));
    assert_eq!(asset_to_replace(&assets, "c.zip"), None);
    assert_eq!(asset_to_replace(&vec![], "a.zip"), None);
}

fn listing() -> RepoListing {
    RepoListing {
        name: "hello".to_string(),
        full_name: Some("octocat/hello".to_string()),
        owner_login: Some("octocat".to_string()),
        html_url: Some("https://github.com/octocat/hello".to_string()),
        clone_url: None,
        description: Some("greetings".to_string()),
        stargazers_count: Some(12),
        forks_count: None,
        watchers_count: Some(3),
        language: Some("Rust".to_string()),
        topics: None,
        license: Some("MIT License".to_string()),
        created_at: Some(100),
        updated_at: None,
        pushed_at: Some(300),
        size_kb: Some(64),
        has_wiki: Some(true),
    }
}

#[test]
fn owners_and_names() {
    let l = listing();
    assert_eq!(owner_of(&l), Ok("octocat".to_string()));
    assert_eq!(repo_display_name(&l), "octocat/hello");
    let mut anon = listing();
    anon.owner_login = None;
    anon.full_name = None;
    assert_eq!(repo_display_name(&anon), "unknown");
    assert_eq!(
        owner_of(&anon),
        Err("Repository 'unknown' has no owner information - cannot fetch commits".to_string())
    );
}

#[test]
fn result_from_listing_and_scores() {
    let r = assemble_result(listing(), 999, None, Ratio { num: 5, den: 10 }, fallback_local_scores());
    assert_eq!(r.name, "hello");
    assert_eq!(r.full_name, "octocat/hello");
    assert_eq!(r.url, "https://github.com/octocat/hello");
    assert_eq!(r.clone_url, "");
    assert_eq!(r.description, Some("greetings".to_string()));
    assert_eq!(r.stars, 12);
    assert_eq!(r.forks, 0);
    assert_eq!(r.watchers, 3);
    assert_eq!(r.topics, Vec::<String>::new());
    assert_eq!(r.license, Some("MIT License".to_string()));
    assert_eq!(r.created_at, 100);
    assert_eq!(r.updated_at, 999);
    assert_eq!(r.pushed_at, 300);
    assert_eq!(r.size_kb, 64);
    // 0.7 * 0.5 + 0.3 * 0.3 = 0.44
    assert_eq!(r.quality_metrics.overall_score.num * 100, 44 * r.quality_metrics.overall_score.den);
    assert_eq!(r.quality_metrics.security_score, Ratio { num: 1, den: 2 });
    assert!(r.errors.is_empty());
    assert!(r.local_metrics.is_none());
}
