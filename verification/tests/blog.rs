use mdblog::render::post_path;
use mdblog::render::render_homepage;
use mdblog::render::render_post;
use mdblog::substitute::replace_bytes;
use mdblog::templates::build_templates;
use mdblog::templates::build_templates_lenient;
use mdblog::templates::content_marker_bytes;
use mdblog::templates::default_banner_bytes;
use mdblog::templates::slug_marker_bytes;
use mdblog::templates::LoadError;
use mdblog::templates::TemplateSet;

fn bytes(s: &str) -> Vec<u8> {
    s.as_bytes().to_vec()
}

fn text(v: &[u8]) -> String {
    String::from_utf8(v.to_vec()).unwrap()
}

fn sample_templates() -> TemplateSet {
    build_templates(
        Some(bytes("<nav>banner</nav>")),
        Some(bytes("<main>{{ content }}</main>")),
        Some(bytes("<p>welcome</p>")),
        Some(bytes("<p>no post called {{slug}}</p>")),
    )
    .unwrap()
}

#[test]
fn replace_single_occurrence() {
    let r = replace_bytes(&bytes("a{{x}}b"), &bytes("{{x}}"), &bytes("YY"));
    assert_eq!(r, bytes("aYYb"));
}

#[test]
fn replace_all_occurrences_left_to_right() {
    let r = replace_bytes(&bytes("-ab-ab-"), &bytes("ab"), &bytes("z"));
    assert_eq!(r, bytes("-z-z-"));
}

#[test]
fn replace_is_non_overlapping() {
    let r = replace_bytes(&bytes("777"), &bytes("77"), &bytes("5"));
    assert_eq!(r, bytes("57"));
}

#[test]
fn replace_without_occurrence_keeps_text() {
    let r = replace_bytes(&bytes("abc"), &bytes("xyz"), &bytes("q"));
    assert_eq!(r, bytes("abc"));
}

#[test]
fn replace_in_empty_text() {
    let r = replace_bytes(&bytes(""), &bytes("ab"), &bytes("z"));
    assert_eq!(r, bytes(""));
}

#[test]
fn replace_with_empty_replacement_deletes() {
    let r = replace_bytes(&bytes("a--b--c"), &bytes("--"), &bytes(""));
    assert_eq!(r, bytes("abc"));
}

#[test]
fn marker_bytes_spell_the_placeholders() {
    assert_eq!(content_marker_bytes(), bytes("{{ content }}"));
    assert_eq!(slug_marker_bytes(), bytes("{{slug}}"));
}

#[test]
fn strict_loading_accepts_full_set() {
    let ts = sample_templates();
    assert_eq!(ts.banner, bytes("<nav>banner</nav>"));
    assert_eq!(ts.layout, bytes("<main>{{ content }}</main>"));
    assert_eq!(ts.home, bytes("<p>welcome</p>"));
    assert_eq!(ts.not_found, bytes("<p>no post called {{slug}}</p>"));
}

#[test]
fn strict_loading_fails_on_first_missing_file() {
    let r = build_templates(None, Some(bytes("l")), Some(bytes("h")), Some(bytes("n")));
    assert!(matches!(r, Err(LoadError::MissingBanner)));
    let r = build_templates(Some(bytes("b")), None, Some(bytes("h")), Some(bytes("n")));
    assert!(matches!(r, Err(LoadError::MissingLayout)));
    let r = build_templates(Some(bytes("b")), Some(bytes("l")), None, Some(bytes("n")));
    assert!(matches!(r, Err(LoadError::MissingHome)));
    let r = build_templates(Some(bytes("b")), Some(bytes("l")), Some(bytes("h")), None);
    assert!(matches!(r, Err(LoadError::MissingNotFound)));
    let r = build_templates(None, None, None, None);
    assert!(matches!(r, Err(LoadError::MissingBanner)));
}

#[test]
fn lenient_loading_uses_default_banner() {
    let ts = build_templates_lenient(
        None,
        Some(bytes("{{ content }}!")),
        Some(bytes("home")),
        Some(bytes("{{slug}}?")),
    );
    assert_eq!(ts.banner, default_banner_bytes());
    assert_eq!(ts.banner, bytes("<h1>blog</h1>"));
    assert_eq!(ts.layout, bytes("{{ content }}!"));
}

#[test]
fn lenient_loading_keeps_given_files() {
    let ts = build_templates_lenient(
        Some(bytes("B")),
        Some(bytes("L{{ content }}")),
        Some(bytes("H")),
        Some(bytes("N{{slug}}")),
    );
    assert_eq!(ts.banner, bytes("B"));
    assert_eq!(ts.layout, bytes("L{{ content }}"));
    assert_eq!(ts.home, bytes("H"));
    assert_eq!(ts.not_found, bytes("N{{slug}}"));
}

#[test]
fn lenient_loading_fills_every_default() {
    let ts = build_templates_lenient(None, None, None, None);
    assert_eq!(ts.banner, bytes("<h1>blog</h1>"));
    assert_eq!(ts.layout, bytes("{{ content }}"));
    assert_eq!(ts.home, bytes("<p>home</p>"));
    assert_eq!(ts.not_found, bytes("missing: {{slug}}"));
}

#[test]
fn homepage_is_banner_plus_wrapped_home_body() {
    let ts = sample_templates();
    let page = render_homepage(&ts);
    assert_eq!(page, bytes("<nav>banner</nav><main><p>welcome</p></main>"));
}

#[test]
fn homepage_is_identical_across_repeated_requests() {
    let ts = sample_templates();
    let first = render_homepage(&ts);
    let second = render_homepage(&ts);
    let third = render_homepage(&ts);
    assert_eq!(first, second);
    assert_eq!(second, third);
}

#[test]
fn found_post_renders_markdown_inside_layout_and_banner() {
    let ts = sample_templates();
    let page = render_post(&ts, &bytes("hello"), Some(bytes("# Hi")));
    let body = text(&page);
    assert!(body.starts_with("<nav>banner</nav>"));
    assert!(body.contains("<main>"));
    assert!(body.contains("</main>"));
    assert!(body.contains("<h1>Hi</h1>"));
}

#[test]
fn missing_post_substitutes_the_literal_slug() {
    let ts = sample_templates();
    let page = render_post(&ts, &bytes("ghost"), None);
    let body = text(&page);
    assert_eq!(
        body,
        "<nav>banner</nav><main><p>no post called ghost</p></main>"
    );
    assert!(body.contains("ghost"));
    assert!(!body.contains("<h1>"));
}

#[test]
fn strikethrough_renders_del_tags() {
    let ts = sample_templates();
    let page = render_post(&ts, &bytes("s"), Some(bytes("~~text~~")));
    let body = text(&page);
    assert!(body.contains("<del>text</del>"));
}

#[test]
fn pipe_table_renders_table_tags() {
    let ts = sample_templates();
    let md = "| a | b |\n| - | - |\n| 1 | 2 |\n";
    let page = render_post(&ts, &bytes("t"), Some(bytes(md)));
    let body = text(&page);
    assert!(body.contains("<table>"));
    assert!(body.contains("</table>"));
    assert!(body.contains("<td>1</td>"));
}

#[test]
fn distinct_slugs_get_their_own_content() {
    let ts = sample_templates();
    let page_a = render_post(&ts, &bytes("alpha"), Some(bytes("content of alpha")));
    let page_b = render_post(&ts, &bytes("beta"), Some(bytes("content of beta")));
    let body_a = text(&page_a);
    let body_b = text(&page_b);
    assert!(body_a.contains("content of alpha"));
    assert!(!body_a.contains("content of beta"));
    assert!(body_b.contains("content of beta"));
    assert!(!body_b.contains("content of alpha"));
    let miss_a = text(&render_post(&ts, &bytes("alpha"), None));
    let miss_b = text(&render_post(&ts, &bytes("beta"), None));
    assert!(miss_a.contains("no post called alpha"));
    assert!(!miss_a.contains("beta"));
    assert!(miss_b.contains("no post called beta"));
    assert!(!miss_b.contains("alpha"));
}

#[test]
fn post_path_joins_directory_slug_and_extension() {
    assert_eq!(post_path(&bytes("hello")), bytes("content/posts/hello.md"));
    assert_eq!(post_path(&bytes("")), bytes("content/posts/.md"));
}
