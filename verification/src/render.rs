//! Page assembly for the two routes: the homepage and the per-slug post
//! page, with a not-found page when the post's file is absent. Markdown
//! conversion is delegated to pulldown-cmark behind a trusted wrapper.

use vstd::prelude::*;
use crate::substitute::replace_all;
use crate::substitute::replace_bytes;
use crate::substitute::push_all;
use crate::templates::TemplateSet;
use crate::templates::content_marker;
use crate::templates::content_marker_bytes;
use crate::templates::slug_marker;
use crate::templates::slug_marker_bytes;

verus! {

/// The HTML that the Markdown converter produces for the given source text,
/// with the strikethrough and table extensions enabled. The output is a
/// function of the source bytes alone.
pub uninterp spec fn markdown_html_of(md: Seq<u8>) -> Seq<u8>;

/// Relies on pulldown_cmark::Parser::new_ext and
/// pulldown_cmark::html::push_html: with a fixed option set (strikethrough
/// and tables enabled) the HTML written out is a function of the input text
/// alone.
#[verifier::external_body]
fn markdown_to_html(md: &Vec<u8>) -> (r: Vec<u8>)
    ensures
        r@ == markdown_html_of(md@),
{
    let text = String::from_utf8_lossy(md);
    let mut options = pulldown_cmark::Options::empty();
    options.insert(pulldown_cmark::Options::ENABLE_STRIKETHROUGH);
    options.insert(pulldown_cmark::Options::ENABLE_TABLES);
    let parser = pulldown_cmark::Parser::new_ext(&text, options);
    let mut html_out = String::new();
    pulldown_cmark::html::push_html(&mut html_out, parser);
    html_out.into_bytes()
}

/// A complete page: the banner, then the layout with its content
/// placeholder replaced by `body`.
pub open spec fn wrapped_page(ts: TemplateSet, body: Seq<u8>) -> Seq<u8> {
    ts.banner@ + replace_all(ts.layout@, content_marker(), body)
}

/// The homepage: the home body wrapped in banner and layout.
pub open spec fn homepage_page(ts: TemplateSet) -> Seq<u8> {
    wrapped_page(ts, ts.home@)
}

/// The page for a post whose Markdown file was read: the converted HTML
/// wrapped in banner and layout.
pub open spec fn found_post_page(ts: TemplateSet, md: Seq<u8>) -> Seq<u8> {
    wrapped_page(ts, markdown_html_of(md))
}

/// The page for a missing post: the not-found body with the slug filled in,
/// wrapped in banner and layout.
pub open spec fn missing_post_page(ts: TemplateSet, slug: Seq<u8>) -> Seq<u8> {
    wrapped_page(ts, replace_all(ts.not_found@, slug_marker(), slug))
}

/// The response to a post request, as a function of the request's slug and
/// of what the file read for that slug returned.
pub open spec fn post_page(ts: TemplateSet, slug: Seq<u8>, file: Option<Seq<u8>>) -> Seq<u8> {
    match file {
        Some(md) => found_post_page(ts, md),
        None => missing_post_page(ts, slug),
    }
}

/// Wraps `body` in the layout and prepends the banner.
fn wrap_page(ts: &TemplateSet, body: &Vec<u8>) -> (r: Vec<u8>)
    ensures
        r@ == wrapped_page(*ts, body@),
{
    let marker = content_marker_bytes();
    let filled = replace_bytes(&ts.layout, &marker, body);
    let mut page: Vec<u8> = Vec::new();
    push_all(&mut page, &ts.banner);
    push_all(&mut page, &filled);
    page
}

/// Renders the homepage. The response is a function of the template set
/// alone, so repeated requests get the identical body.
pub fn render_homepage(ts: &TemplateSet) -> (r: Vec<u8>)
    ensures
        r@ == homepage_page(*ts),
{
    wrap_page(ts, &ts.home)
}

/// Renders the page for one post request: `file` is the content of the
/// post's Markdown file, or `None` when that file could not be read, in
/// which case the not-found page for the slug is produced instead.
pub fn render_post(ts: &TemplateSet, slug: &Vec<u8>, file: Option<Vec<u8>>) -> (r: Vec<u8>)
    ensures
        file matches Some(md) ==> r@ == found_post_page(*ts, md@),
        file is None ==> r@ == missing_post_page(*ts, slug@),
{
    match file {
        Some(md) => {
            let html = markdown_to_html(&md);
            wrap_page(ts, &html)
        },
        None => {
            let marker = slug_marker_bytes();
            let body = replace_bytes(&ts.not_found, &marker, slug);
            wrap_page(ts, &body)
        },
    }
}

/// A rendered post page carries its pieces: when the layout holds the
/// content placeholder, the page for a post whose file was read contains the
/// banner and the HTML converted from that file's Markdown.
pub proof fn lemma_found_page_parts(ts: TemplateSet, md: Seq<u8>)
    requires
        crate::substitute::contains_seq(ts.layout@, content_marker()),
    ensures
        crate::substitute::contains_seq(found_post_page(ts, md), ts.banner@),
        crate::substitute::contains_seq(found_post_page(ts, md), markdown_html_of(md)),
{
    let filled = replace_all(ts.layout@, content_marker(), markdown_html_of(md));
    crate::substitute::lemma_concat_contains_left(ts.banner@, filled);
    crate::substitute::lemma_replace_contains(ts.layout@, content_marker(), markdown_html_of(md));
    crate::substitute::lemma_concat_contains_right(ts.banner@, filled, markdown_html_of(md));
}

/// A not-found page carries its pieces: with a well-formed template set, the
/// page for a missing post contains the banner and the literal slug.
pub proof fn lemma_missing_page_parts(ts: TemplateSet, slug: Seq<u8>)
    requires
        ts.wf(),
    ensures
        crate::substitute::contains_seq(missing_post_page(ts, slug), ts.banner@),
        crate::substitute::contains_seq(missing_post_page(ts, slug), slug),
{
    let body = replace_all(ts.not_found@, slug_marker(), slug);
    let filled = replace_all(ts.layout@, content_marker(), body);
    crate::substitute::lemma_concat_contains_left(ts.banner@, filled);
    crate::substitute::lemma_replace_contains(ts.not_found@, slug_marker(), slug);
    crate::substitute::lemma_replace_contains(ts.layout@, content_marker(), body);
    crate::substitute::lemma_contains_trans(filled, body, slug);
    crate::substitute::lemma_concat_contains_right(ts.banner@, filled, slug);
}

/// The homepage is idempotent: any two responses rendered from the same
/// template set are identical, byte for byte.
pub proof fn lemma_homepage_repeatable(ts: TemplateSet, r1: Seq<u8>, r2: Seq<u8>)
    requires
        r1 == homepage_page(ts),
        r2 == homepage_page(ts),
    ensures
        r1 == r2,
{
}

/// A post response carries the content of its own request: the converted
/// Markdown of the file read for its slug, or, when that file was absent,
/// the slug itself.
pub proof fn lemma_post_page_own_content(ts: TemplateSet, slug: Seq<u8>, file: Option<Seq<u8>>)
    requires
        ts.wf(),
    ensures
        file matches Some(md) ==> crate::substitute::contains_seq(
            post_page(ts, slug, file),
            markdown_html_of(md),
        ),
        file is None ==> crate::substitute::contains_seq(post_page(ts, slug, file), slug),
{
    match file {
        Some(md) => lemma_found_page_parts(ts, md),
        None => lemma_missing_page_parts(ts, slug),
    }
}

/// Requests are isolated: two requests served against the same shared
/// template set each get a response carrying their own slug's content,
/// whatever the other request read.
pub proof fn lemma_requests_isolated(
    ts: TemplateSet,
    slug_a: Seq<u8>,
    file_a: Option<Seq<u8>>,
    slug_b: Seq<u8>,
    file_b: Option<Seq<u8>>,
)
    requires
        ts.wf(),
    ensures
        file_a matches Some(md) ==> crate::substitute::contains_seq(
            post_page(ts, slug_a, file_a),
            markdown_html_of(md),
        ),
        file_a is None ==> crate::substitute::contains_seq(post_page(ts, slug_a, file_a), slug_a),
        file_b matches Some(md) ==> crate::substitute::contains_seq(
            post_page(ts, slug_b, file_b),
            markdown_html_of(md),
        ),
        file_b is None ==> crate::substitute::contains_seq(post_page(ts, slug_b, file_b), slug_b),
{
    lemma_post_page_own_content(ts, slug_a, file_a);
    lemma_post_page_own_content(ts, slug_b, file_b);
}

/// The fixed directory every post file lives under: `content/posts/`.
pub open spec fn posts_prefix() -> Seq<u8> {
    seq![
        99u8,
        111u8,
        110u8,
        116u8,
        101u8,
        110u8,
        116u8,
        47u8,
        112u8,
        111u8,
        115u8,
        116u8,
        115u8,
        47u8,
    ]
}

/// The fixed extension of a post file: `.md`.
pub open spec fn md_suffix() -> Seq<u8> {
    seq![46u8, 109u8, 100u8]
}

/// The path of the Markdown file backing a slug: the fixed posts directory,
/// the slug, and the fixed extension.
pub fn post_path(slug: &Vec<u8>) -> (r: Vec<u8>)
    ensures
        r@ == posts_prefix() + slug@ + md_suffix(),
{
    let mut p: Vec<u8> = Vec::new();
    p.push(99u8);
    p.push(111u8);
    p.push(110u8);
    p.push(116u8);
    p.push(101u8);
    p.push(110u8);
    p.push(116u8);
    p.push(47u8);
    p.push(112u8);
    p.push(111u8);
    p.push(115u8);
    p.push(116u8);
    p.push(115u8);
    p.push(47u8);
    proof {
        assert(p@ =~= posts_prefix());
    }
    push_all(&mut p, slug);
    p.push(46u8);
    p.push(109u8);
    p.push(100u8);
    proof {
        assert(p@ =~= posts_prefix() + slug@ + md_suffix());
    }
    p
}

} // verus!
