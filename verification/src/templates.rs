//! The immutable template set loaded once at startup, the placeholder
//! markers the templates carry, and the strict and lenient loaders.

use vstd::prelude::*;

verus! {

/// The bytes of the layout placeholder `{{ content }}`.
pub open spec fn content_marker() -> Seq<u8> {
    seq![123u8, 123u8, 32u8, 99u8, 111u8, 110u8, 116u8, 101u8, 110u8, 116u8, 32u8, 125u8, 125u8]
}

/// The bytes of the not-found placeholder `{{slug}}`.
pub open spec fn slug_marker() -> Seq<u8> {
    seq![123u8, 123u8, 115u8, 108u8, 117u8, 103u8, 125u8, 125u8]
}

/// The layout placeholder as an executable value.
pub fn content_marker_bytes() -> (r: Vec<u8>)
    ensures
        r@ == content_marker(),
{
    let mut v: Vec<u8> = Vec::new();
    v.push(123u8);
    v.push(123u8);
    v.push(32u8);
    v.push(99u8);
    v.push(111u8);
    v.push(110u8);
    v.push(116u8);
    v.push(101u8);
    v.push(110u8);
    v.push(116u8);
    v.push(32u8);
    v.push(125u8);
    v.push(125u8);
    proof {
        assert(v@ =~= content_marker());
    }
    v
}

/// The not-found placeholder as an executable value.
pub fn slug_marker_bytes() -> (r: Vec<u8>)
    ensures
        r@ == slug_marker(),
{
    let mut v: Vec<u8> = Vec::new();
    v.push(123u8);
    v.push(123u8);
    v.push(115u8);
    v.push(108u8);
    v.push(117u8);
    v.push(103u8);
    v.push(125u8);
    v.push(125u8);
    proof {
        assert(v@ =~= slug_marker());
    }
    v
}

/// The fixed HTML fragments every page is assembled from. Loaded once at
/// startup and immutable afterwards; request handlers only read it.
pub struct TemplateSet {
    /// Fragment prepended to every page.
    pub banner: Vec<u8>,
    /// Page wrapper; carries the `{{ content }}` placeholder.
    pub layout: Vec<u8>,
    /// Homepage body.
    pub home: Vec<u8>,
    /// Body for a missing post; carries the `{{slug}}` placeholder.
    pub not_found: Vec<u8>,
}

impl TemplateSet {
    /// A usable template set: the layout can receive content and the
    /// not-found body can receive a slug.
    pub open spec fn wf(self) -> bool {
        &&& crate::substitute::contains_seq(self.layout@, content_marker())
        &&& crate::substitute::contains_seq(self.not_found@, slug_marker())
    }
}

/// Which required template file was missing, in loading order.
#[derive(Clone, Copy, Debug, PartialEq, Eq, Structural)]
pub enum LoadError {
    MissingBanner,
    MissingLayout,
    MissingHome,
    MissingNotFound,
}

/// Strict startup loading: every template file is required, and the first
/// missing one (in the order banner, layout, home, not-found) is the error.
pub fn build_templates(
    banner: Option<Vec<u8>>,
    layout: Option<Vec<u8>>,
    home: Option<Vec<u8>>,
    not_found: Option<Vec<u8>>,
) -> (r: Result<TemplateSet, LoadError>)
    ensures
        r is Ok <==> (banner is Some && layout is Some && home is Some && not_found is Some),
        banner is None ==> r == Result::<TemplateSet, LoadError>::Err(LoadError::MissingBanner),
        banner is Some && layout is None ==> r == Result::<TemplateSet, LoadError>::Err(
            LoadError::MissingLayout,
        ),
        banner is Some && layout is Some && home is None ==> r == Result::<
            TemplateSet,
            LoadError,
        >::Err(LoadError::MissingHome),
        banner is Some && layout is Some && home is Some && not_found is None ==> r == Result::<
            TemplateSet,
            LoadError,
        >::Err(LoadError::MissingNotFound),
        r is Ok ==> {
            &&& r->Ok_0.banner@ == banner->0@
            &&& r->Ok_0.layout@ == layout->0@
            &&& r->Ok_0.home@ == home->0@
            &&& r->Ok_0.not_found@ == not_found->0@
        },
{
    let banner = match banner {
        Some(b) => b,
        None => {
            return Err(LoadError::MissingBanner);
        },
    };
    let layout = match layout {
        Some(l) => l,
        None => {
            return Err(LoadError::MissingLayout);
        },
    };
    let home = match home {
        Some(h) => h,
        None => {
            return Err(LoadError::MissingHome);
        },
    };
    let not_found = match not_found {
        Some(n) => n,
        None => {
            return Err(LoadError::MissingNotFound);
        },
    };
    Ok(TemplateSet { banner, layout, home, not_found })
}

/// The built-in banner used when `banner.html` is absent in lenient mode:
/// `<h1>blog</h1>`.
pub open spec fn default_banner() -> Seq<u8> {
    seq![60u8, 104u8, 49u8, 62u8, 98u8, 108u8, 111u8, 103u8, 60u8, 47u8, 104u8, 49u8, 62u8]
}

/// The built-in layout used when `layout.html` is absent in lenient mode:
/// the bare content placeholder, so a page is banner plus content.
pub open spec fn default_layout() -> Seq<u8> {
    content_marker()
}

/// The built-in homepage body used when `home.html` is absent in lenient
/// mode: `<p>home</p>`.
pub open spec fn default_home() -> Seq<u8> {
    seq![60u8, 112u8, 62u8, 104u8, 111u8, 109u8, 101u8, 60u8, 47u8, 112u8, 62u8]
}

/// The built-in not-found body used when `not_found.html` is absent in
/// lenient mode: `missing: {{slug}}`.
pub open spec fn default_not_found() -> Seq<u8> {
    seq![109u8, 105u8, 115u8, 115u8, 105u8, 110u8, 103u8, 58u8, 32u8] + slug_marker()
}

/// The built-in banner as an executable value.
pub fn default_banner_bytes() -> (r: Vec<u8>)
    ensures
        r@ == default_banner(),
{
    let mut v: Vec<u8> = Vec::new();
    v.push(60u8);
    v.push(104u8);
    v.push(49u8);
    v.push(62u8);
    v.push(98u8);
    v.push(108u8);
    v.push(111u8);
    v.push(103u8);
    v.push(60u8);
    v.push(47u8);
    v.push(104u8);
    v.push(49u8);
    v.push(62u8);
    proof {
        assert(v@ =~= default_banner());
    }
    v
}

/// The built-in homepage body as an executable value.
pub fn default_home_bytes() -> (r: Vec<u8>)
    ensures
        r@ == default_home(),
{
    let mut v: Vec<u8> = Vec::new();
    v.push(60u8);
    v.push(112u8);
    v.push(62u8);
    v.push(104u8);
    v.push(111u8);
    v.push(109u8);
    v.push(101u8);
    v.push(60u8);
    v.push(47u8);
    v.push(112u8);
    v.push(62u8);
    proof {
        assert(v@ =~= default_home());
    }
    v
}

/// The built-in not-found body as an executable value.
pub fn default_not_found_bytes() -> (r: Vec<u8>)
    ensures
        r@ == default_not_found(),
{
    let mut v: Vec<u8> = Vec::new();
    v.push(109u8);
    v.push(105u8);
    v.push(115u8);
    v.push(115u8);
    v.push(105u8);
    v.push(110u8);
    v.push(103u8);
    v.push(58u8);
    v.push(32u8);
    v.push(123u8);
    v.push(123u8);
    v.push(115u8);
    v.push(108u8);
    v.push(117u8);
    v.push(103u8);
    v.push(125u8);
    v.push(125u8);
    proof {
        assert(v@ =~= default_not_found());
    }
    v
}

/// Lenient startup loading: each missing template file is replaced by its
/// built-in default, and loading never fails.
pub fn build_templates_lenient(
    banner: Option<Vec<u8>>,
    layout: Option<Vec<u8>>,
    home: Option<Vec<u8>>,
    not_found: Option<Vec<u8>>,
) -> (r: TemplateSet)
    ensures
        r.banner@ == if banner is Some {
            banner->0@
        } else {
            default_banner()
        },
        r.layout@ == if layout is Some {
            layout->0@
        } else {
            default_layout()
        },
        r.home@ == if home is Some {
            home->0@
        } else {
            default_home()
        },
        r.not_found@ == if not_found is Some {
            not_found->0@
        } else {
            default_not_found()
        },
{
    let banner = match banner {
        Some(b) => b,
        None => default_banner_bytes(),
    };
    let layout = match layout {
        Some(l) => l,
        None => content_marker_bytes(),
    };
    let home = match home {
        Some(h) => h,
        None => default_home_bytes(),
    };
    let not_found = match not_found {
        Some(n) => n,
        None => default_not_found_bytes(),
    };
    TemplateSet { banner, layout, home, not_found }
}

} // verus!
