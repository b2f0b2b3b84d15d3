use vstd::prelude::*;

verus! {

/// One matching rule: a pattern string, interpreted as a regular expression
/// when it compiles and as a literal substring otherwise, and an optional
/// version-substitution template that is only meaningful when the pattern
/// has a capturing group.
pub struct Pattern {
    pub pattern: String,
    pub version: Option<String>,
}

/// The mathematical content of a `Pattern`: the pattern text and the
/// optional template, both as character sequences.
#[verifier::ext_equal]
pub ghost struct PatternView {
    pub pattern: Seq<char>,
    pub version: Option<Seq<char>>,
}

impl View for Pattern {
    type V = PatternView;

    open spec fn view(&self) -> PatternView {
        PatternView { pattern: self.pattern@, version: self.version.deep_view() }
    }
}

impl DeepView for Pattern {
    type V = PatternView;

    open spec fn deep_view(&self) -> PatternView {
        self@
    }
}

impl Pattern {
    /// A rule that matches but makes no version claim.
    pub fn new(pattern: &str) -> (r: Self)
        ensures
            r@.pattern == pattern@,
            r@.version is None,
    {
        Self { pattern: pattern.to_owned(), version: None }
    }

    /// A rule that, on a successful regex match, may yield a version string.
    pub fn with_version(pattern: &str, version: &str) -> (r: Self)
        ensures
            r@.pattern == pattern@,
            r@.version == Some(version@),
    {
        Self { pattern: pattern.to_owned(), version: Some(version.to_owned()) }
    }
}

/// One named technology's detection rules. Each of the five rule groups is
/// independently present or absent; `headers`, `meta` and `cookies` are
/// ordered name-to-rule associations evaluated in list order.
pub struct Technology {
    pub name: String,
    pub category: String,
    pub website: Option<String>,
    pub html: Option<Vec<Pattern>>,
    pub scripts: Option<Vec<Pattern>>,
    pub headers: Option<Vec<(String, Pattern)>>,
    pub meta: Option<Vec<(String, Pattern)>>,
    pub cookies: Option<Vec<(String, Pattern)>>,
}

/// The mathematical content of a `Technology`.
#[verifier::ext_equal]
pub ghost struct TechnologyView {
    pub name: Seq<char>,
    pub category: Seq<char>,
    pub website: Option<Seq<char>>,
    pub html: Option<Seq<PatternView>>,
    pub scripts: Option<Seq<PatternView>>,
    pub headers: Option<Seq<(Seq<char>, PatternView)>>,
    pub meta: Option<Seq<(Seq<char>, PatternView)>>,
    pub cookies: Option<Seq<(Seq<char>, PatternView)>>,
}

impl View for Technology {
    type V = TechnologyView;

    open spec fn view(&self) -> TechnologyView {
        TechnologyView {
            name: self.name@,
            category: self.category@,
            website: self.website.deep_view(),
            html: self.html.deep_view(),
            scripts: self.scripts.deep_view(),
            headers: self.headers.deep_view(),
            meta: self.meta.deep_view(),
            cookies: self.cookies.deep_view(),
        }
    }
}

impl DeepView for Technology {
    type V = TechnologyView;

    open spec fn deep_view(&self) -> TechnologyView {
        self@
    }
}

/// How many signatures the built-in catalog holds.
pub const CATALOG_COUNT: usize = 74;

/// Spec-level content of the content management systems signatures.
pub open spec fn spec_cms_signatures() -> Seq<TechnologyView> {
    seq![
        TechnologyView {
            name: "WordPress"@,
            category: "CMS"@,
            website: Some("https://wordpress.org"@),
            html: Some(seq![
                PatternView { pattern: r#"/wp-content/"#@, version: None },
                PatternView { pattern: r#"/wp-includes/"#@, version: None },
                PatternView { pattern: r#"wp-json"#@, version: None },
                PatternView { pattern: r#"WordPress ([0-9.]+)"#@, version: Some(r"$1"@) },
                PatternView { pattern: r#"class="wp-"#@, version: None },
            ]),
            scripts: Some(seq![
                PatternView { pattern: r#"/wp-content/.*\.js"#@, version: None },
                PatternView { pattern: r#"/wp-includes/.*\.js"#@, version: None },
                PatternView { pattern: r#"wp-emoji"#@, version: None },
            ]),
            headers: None,
            meta: Some(seq![
                ("generator"@, PatternView { pattern: r#"WordPress ([0-9.]+)"#@, version: Some(r"$1"@) }),
            ]),
            cookies: None,
        },
        TechnologyView {
            name: "Drupal"@,
            category: "CMS"@,
            website: Some("https://www.drupal.org"@),
            html: Some(seq![
                PatternView { pattern: r#"Drupal"#@, version: None },
                PatternView { pattern: r#"/sites/default/files"#@, version: None },
                PatternView { pattern: r#"data-drupal-"#@, version: None },
            ]),
            scripts: Some(seq![
                PatternView { pattern: r#"/sites/default/files/js"#@, version: None },
                PatternView { pattern: r#"drupal\.js"#@, version: None },
            ]),
            headers: Some(seq![
                ("x-drupal-cache"@, PatternView { pattern: r"."@, version: None }),
                ("x-generator"@, PatternView { pattern: r"Drupal"@, version: None }),
            ]),
            meta: Some(seq![
                ("generator"@, PatternView { pattern: r#"Drupal ([0-9]+)"#@, version: Some(r"$1"@) }),
            ]),
            cookies: None,
        },
        TechnologyView {
            name: "Joomla"@,
            category: "CMS"@,
            website: Some("https://www.joomla.org"@),
            html: Some(seq![
                PatternView { pattern: r#"Joomla!"#@, version: None },
                PatternView { pattern: r#"/media/system/js/"#@, version: None },
                PatternView { pattern: r#"com_content"#@, version: None },
            ]),
            scripts: Some(seq![
                PatternView { pattern: r#"/media/system/js/mootools"#@, version: None },
                PatternView { pattern: r#"joomla"#@, version: None },
            ]),
            headers: None,
            meta: Some(seq![
                ("generator"@, PatternView { pattern: r#"Joomla! ([0-9.]+)"#@, version: Some(r"$1"@) }),
            ]),
            cookies: None,
        },
        TechnologyView {
            name: "Wix"@,
            category: "CMS"@,
            website: Some("https://www.wix.com"@),
            html: Some(seq![
                PatternView { pattern: r#"wix\.com"#@, version: None },
                PatternView { pattern: r#"X-Wix-"#@, version: None },
                PatternView { pattern: r#"wixstatic\.com"#@, version: None },
            ]),
            scripts: Some(seq![
                PatternView { pattern: r#"static\.parastorage\.com"#@, version: None },
            ]),
            headers: Some(seq![
                ("x-wix-request-id"@, PatternView { pattern: r"."@, version: None }),
            ]),
            meta: Some(seq![
                ("generator"@, PatternView { pattern: r"Wix.com"@, version: None }),
            ]),
            cookies: None,
        },
        TechnologyView {
            name: "Squarespace"@,
            category: "CMS"@,
            website: Some("https://www.squarespace.com"@),
            html: Some(seq![
                PatternView { pattern: r#"squarespace"#@, version: None },
                PatternView { pattern: r#"sqsp"#@, version: None },
            ]),
            scripts: Some(seq![
                PatternView { pattern: r#"static\.squarespace\.com"#@, version: None },
            ]),
            headers: Some(seq![
                ("x-servedby"@, PatternView { pattern: r"squarespace"@, version: None }),
            ]),
            meta: None,
            cookies: None,
        },
        TechnologyView {
            name: "Webflow"@,
            category: "CMS"@,
            website: Some("https://webflow.com"@),
            html: Some(seq![
                PatternView { pattern: r#"webflow"#@, version: None },
                PatternView { pattern: r#"wf-page"#@, version: None },
            ]),
            scripts: Some(seq![
                PatternView { pattern: r#"webflow\.com"#@, version: None },
            ]),
            headers: None,
            meta: None,
            cookies: None,
        },
    ]
}

/// The content management systems signatures.
fn cms_signatures() -> (r: Vec<Technology>)
    ensures
        r.deep_view() == spec_cms_signatures(),
{
    let mut v: Vec<Technology> = Vec::new();

    // WordPress
    v.push(Technology {
        name: "WordPress".to_owned(),
        category: "CMS".to_owned(),
        website: Some("https://wordpress.org".to_owned()),
        html: Some(vec![
            Pattern::new(r#"/wp-content/"#),
            Pattern::new(r#"/wp-includes/"#),
            Pattern::new(r#"wp-json"#),
            Pattern::with_version(r#"WordPress ([0-9.]+)"#, r"$1"),
            Pattern::new(r#"class="wp-"#),
        ]),
        scripts: Some(vec![
            Pattern::new(r#"/wp-content/.*\.js"#),
            Pattern::new(r#"/wp-includes/.*\.js"#),
            Pattern::new(r#"wp-emoji"#),
        ]),
        meta: Some(vec![(
            "generator".to_owned(),
            Pattern::with_version(r#"WordPress ([0-9.]+)"#, r"$1"),
        )]),
        headers: None,
        cookies: None,
    });

    // Drupal
    v.push(Technology {
        name: "Drupal".to_owned(),
        category: "CMS".to_owned(),
        website: Some("https://www.drupal.org".to_owned()),
        html: Some(vec![
            Pattern::new(r#"Drupal"#),
            Pattern::new(r#"/sites/default/files"#),
            Pattern::new(r#"data-drupal-"#),
        ]),
        scripts: Some(vec![
            Pattern::new(r#"/sites/default/files/js"#),
            Pattern::new(r#"drupal\.js"#),
        ]),
        meta: Some(vec![(
            "generator".to_owned(),
            Pattern::with_version(r#"Drupal ([0-9]+)"#, r"$1"),
        )]),
        headers: Some(vec![
            ("x-drupal-cache".to_owned(), Pattern::new(r".")),
            ("x-generator".to_owned(), Pattern::new(r"Drupal")),
        ]),
        cookies: None,
    });

    // Joomla
    v.push(Technology {
        name: "Joomla".to_owned(),
        category: "CMS".to_owned(),
        website: Some("https://www.joomla.org".to_owned()),
        html: Some(vec![
            Pattern::new(r#"Joomla!"#),
            Pattern::new(r#"/media/system/js/"#),
            Pattern::new(r#"com_content"#),
        ]),
        scripts: Some(vec![
            Pattern::new(r#"/media/system/js/mootools"#),
            Pattern::new(r#"joomla"#),
        ]),
        meta: Some(vec![(
            "generator".to_owned(),
            Pattern::with_version(r#"Joomla! ([0-9.]+)"#, r"$1"),
        )]),
        headers: None,
        cookies: None,
    });

    // Wix
    v.push(Technology {
        name: "Wix".to_owned(),
        category: "CMS".to_owned(),
        website: Some("https://www.wix.com".to_owned()),
        html: Some(vec![
            Pattern::new(r#"wix\.com"#),
            Pattern::new(r#"X-Wix-"#),
            Pattern::new(r#"wixstatic\.com"#),
        ]),
        scripts: Some(vec![Pattern::new(r#"static\.parastorage\.com"#)]),
        headers: Some(vec![(
            "x-wix-request-id".to_owned(),
            Pattern::new(r"."),
        )]),
        meta: Some(vec![(
            "generator".to_owned(),
            Pattern::new(r"Wix.com"),
        )]),
        cookies: None,
    });

    // Squarespace
    v.push(Technology {
        name: "Squarespace".to_owned(),
        category: "CMS".to_owned(),
        website: Some("https://www.squarespace.com".to_owned()),
        html: Some(vec![
            Pattern::new(r#"squarespace"#),
            Pattern::new(r#"sqsp"#),
        ]),
        scripts: Some(vec![Pattern::new(r#"static\.squarespace\.com"#)]),
        headers: Some(vec![(
            "x-servedby".to_owned(),
            Pattern::new(r"squarespace"),
        )]),
        meta: None,
        cookies: None,
    });

    // Webflow
    v.push(Technology {
        name: "Webflow".to_owned(),
        category: "CMS".to_owned(),
        website: Some("https://webflow.com".to_owned()),
        html: Some(vec![
            Pattern::new(r#"webflow"#),
            Pattern::new(r#"wf-page"#),
        ]),
        scripts: Some(vec![Pattern::new(r#"webflow\.com"#)]),
        meta: None,
        headers: None,
        cookies: None,
    });

    proof {
        assert(v.deep_view() =~~= spec_cms_signatures());
    }
    v
}


/// Spec-level content of the e-commerce signatures.
pub open spec fn spec_ecommerce_signatures() -> Seq<TechnologyView> {
    seq![
        TechnologyView {
            name: "Shopify"@,
            category: "Ecommerce"@,
            website: Some("https://www.shopify.com"@),
            html: Some(seq![
                PatternView { pattern: r#"cdn\.shopify\.com"#@, version: None },
                PatternView { pattern: r#"Shopify\.theme"#@, version: None },
                PatternView { pattern: r#"shopify-analytics"#@, version: None },
            ]),
            scripts: Some(seq![
                PatternView { pattern: r#"cdn\.shopify\.com"#@, version: None },
                PatternView { pattern: r#"shopify_pay"#@, version: None },
            ]),
            headers: Some(seq![
                ("x-shopify-stage"@, PatternView { pattern: r"."@, version: None }),
                ("x-shopid"@, PatternView { pattern: r"."@, version: None }),
            ]),
            meta: None,
            cookies: Some(seq![
                ("_shopify_visit"@, PatternView { pattern: r"."@, version: None }),
            ]),
        },
        TechnologyView {
            name: "WooCommerce"@,
            category: "Ecommerce"@,
            website: Some("https://woocommerce.com"@),
            html: Some(seq![
                PatternView { pattern: r#"woocommerce"#@, version: None },
                PatternView { pattern: r#"wc-"#@, version: None },
                PatternView { pattern: r#"wp-content/plugins/woocommerce"#@, version: None },
            ]),
            scripts: Some(seq![
                PatternView { pattern: r#"wp-content/plugins/woocommerce/.*\.js"#@, version: None },
            ]),
            headers: None,
            meta: Some(seq![
                ("generator"@, PatternView { pattern: r#"WooCommerce ([0-9.]+)"#@, version: Some(r"$1"@) }),
            ]),
            cookies: None,
        },
        TechnologyView {
            name: "Magento"@,
            category: "Ecommerce"@,
            website: Some("https://magento.com"@),
            html: Some(seq![
                PatternView { pattern: r#"Mage\.Cookies"#@, version: None },
                PatternView { pattern: r#"Magento"#@, version: None },
                PatternView { pattern: r#"skin/frontend"#@, version: None },
            ]),
            scripts: Some(seq![
                PatternView { pattern: r#"mage/"#@, version: None },
                PatternView { pattern: r#"varien/"#@, version: None },
            ]),
            headers: Some(seq![
                ("x-magento-tags"@, PatternView { pattern: r"."@, version: None }),
            ]),
            meta: None,
            cookies: Some(seq![
                ("frontend"@, PatternView { pattern: r"."@, version: None }),
            ]),
        },
        TechnologyView {
            name: "BigCommerce"@,
            category: "Ecommerce"@,
            website: Some("https://www.bigcommerce.com"@),
            html: Some(seq![
                PatternView { pattern: r#"bigcommerce"#@, version: None },
            ]),
            scripts: Some(seq![
                PatternView { pattern: r#"cdn.*bigcommerce"#@, version: None },
            ]),
            headers: Some(seq![
                ("x-bc-storefront"@, PatternView { pattern: r"."@, version: None }),
            ]),
            meta: None,
            cookies: None,
        },
        TechnologyView {
            name: "PrestaShop"@,
            category: "Ecommerce"@,
            website: Some("https://www.prestashop.com"@),
            html: Some(seq![
                PatternView { pattern: r#"prestashop"#@, version: None },
                PatternView { pattern: r#"powered by PrestaShop"#@, version: None },
            ]),
            scripts: Some(seq![
                PatternView { pattern: r#"prestashop"#@, version: None },
            ]),
            headers: None,
            meta: Some(seq![
                ("generator"@, PatternView { pattern: r#"PrestaShop ([0-9.]+)"#@, version: Some(r"$1"@) }),
            ]),
            cookies: None,
        },
    ]
}

/// The e-commerce signatures.
fn ecommerce_signatures() -> (r: Vec<Technology>)
    ensures
        r.deep_view() == spec_ecommerce_signatures(),
{
    let mut v: Vec<Technology> = Vec::new();

    // Shopify
    v.push(Technology {
        name: "Shopify".to_owned(),
        category: "Ecommerce".to_owned(),
        website: Some("https://www.shopify.com".to_owned()),
        html: Some(vec![
            Pattern::new(r#"cdn\.shopify\.com"#),
            Pattern::new(r#"Shopify\.theme"#),
            Pattern::new(r#"shopify-analytics"#),
        ]),
        scripts: Some(vec![
            Pattern::new(r#"cdn\.shopify\.com"#),
            Pattern::new(r#"shopify_pay"#),
        ]),
        headers: Some(vec![
            ("x-shopify-stage".to_owned(), Pattern::new(r".")),
            ("x-shopid".to_owned(), Pattern::new(r".")),
        ]),
        meta: None,
        cookies: Some(vec![(
            "_shopify_visit".to_owned(),
            Pattern::new(r"."),
        )]),
    });

    // WooCommerce
    v.push(Technology {
        name: "WooCommerce".to_owned(),
        category: "Ecommerce".to_owned(),
        website: Some("https://woocommerce.com".to_owned()),
        html: Some(vec![
            Pattern::new(r#"woocommerce"#),
            Pattern::new(r#"wc-"#),
            Pattern::new(r#"wp-content/plugins/woocommerce"#),
        ]),
        scripts: Some(vec![Pattern::new(
            r#"wp-content/plugins/woocommerce/.*\.js"#,
        )]),
        meta: Some(vec![(
            "generator".to_owned(),
            Pattern::with_version(r#"WooCommerce ([0-9.]+)"#, r"$1"),
        )]),
        headers: None,
        cookies: None,
    });

    // Magento
    v.push(Technology {
        name: "Magento".to_owned(),
        category: "Ecommerce".to_owned(),
        website: Some("https://magento.com".to_owned()),
        html: Some(vec![
            Pattern::new(r#"Mage\.Cookies"#),
            Pattern::new(r#"Magento"#),
            Pattern::new(r#"skin/frontend"#),
        ]),
        scripts: Some(vec![
            Pattern::new(r#"mage/"#),
            Pattern::new(r#"varien/"#),
        ]),
        headers: Some(vec![(
            "x-magento-tags".to_owned(),
            Pattern::new(r"."),
        )]),
        meta: None,
        cookies: Some(vec![(
            "frontend".to_owned(),
            Pattern::new(r"."),
        )]),
    });

    // BigCommerce
    v.push(Technology {
        name: "BigCommerce".to_owned(),
        category: "Ecommerce".to_owned(),
        website: Some("https://www.bigcommerce.com".to_owned()),
        html: Some(vec![Pattern::new(r#"bigcommerce"#)]),
        scripts: Some(vec![Pattern::new(r#"cdn.*bigcommerce"#)]),
        headers: Some(vec![(
            "x-bc-storefront".to_owned(),
            Pattern::new(r"."),
        )]),
        meta: None,
        cookies: None,
    });

    // PrestaShop
    v.push(Technology {
        name: "PrestaShop".to_owned(),
        category: "Ecommerce".to_owned(),
        website: Some("https://www.prestashop.com".to_owned()),
        html: Some(vec![
            Pattern::new(r#"prestashop"#),
            Pattern::new(r#"powered by PrestaShop"#),
        ]),
        scripts: Some(vec![Pattern::new(r#"prestashop"#)]),
        meta: Some(vec![(
            "generator".to_owned(),
            Pattern::with_version(r#"PrestaShop ([0-9.]+)"#, r"$1"),
        )]),
        headers: None,
        cookies: None,
    });

    proof {
        assert(v.deep_view() =~~= spec_ecommerce_signatures());
    }
    v
}


/// Spec-level content of the javascript frameworks signatures.
pub open spec fn spec_javascript_frameworks_signatures() -> Seq<TechnologyView> {
    seq![
        TechnologyView {
            name: "React"@,
            category: "JavaScript Framework"@,
            website: Some("https://react.dev"@),
            html: Some(seq![
                PatternView { pattern: r#"data-reactroot"#@, version: None },
                PatternView { pattern: r#"data-react-helmet"#@, version: None },
                PatternView { pattern: r#"data-reactid"#@, version: None },
                PatternView { pattern: r#"<div id="root"#@, version: None },
            ]),
            scripts: Some(seq![
                PatternView { pattern: r#"react@([0-9.]+)"#@, version: Some(r"$1"@) },
                PatternView { pattern: r#"/react\..*\.js"#@, version: None },
                PatternView { pattern: r#"cdn.*react"#@, version: None },
                PatternView { pattern: r#"react-dom"#@, version: None },
            ]),
            headers: None,
            meta: None,
            cookies: None,
        },
        TechnologyView {
            name: "Vue.js"@,
            category: "JavaScript Framework"@,
            website: Some("https://vuejs.org"@),
            html: Some(seq![
                PatternView { pattern: r#"data-v-"#@, version: None },
                PatternView { pattern: r#"v-cloak"#@, version: None },
                PatternView { pattern: r#"v-bind:"#@, version: None },
                PatternView { pattern: r#"v-for="#@, version: None },
                PatternView { pattern: r#"v-if="#@, version: None },
            ]),
            scripts: Some(seq![
                PatternView { pattern: r#"vue@([0-9.]+)"#@, version: Some(r"$1"@) },
                PatternView { pattern: r#"vue\.js"#@, version: None },
                PatternView { pattern: r#"vue\.min\.js"#@, version: None },
            ]),
            headers: None,
            meta: None,
            cookies: None,
        },
        TechnologyView {
            name: "Angular"@,
            category: "JavaScript Framework"@,
            website: Some("https://angular.io"@),
            html: Some(seq![
                PatternView { pattern: r#"ng-"#@, version: None },
                PatternView { pattern: r#"\[ng"#@, version: None },
                PatternView { pattern: r#"_ngcontent"#@, version: None },
                PatternView { pattern: r#"_nghost"#@, version: None },
            ]),
            scripts: Some(seq![
                PatternView { pattern: r#"angular\.js"#@, version: None },
                PatternView { pattern: r#"@angular/core"#@, version: None },
            ]),
            headers: None,
            meta: None,
            cookies: None,
        },
        TechnologyView {
            name: "Svelte"@,
            category: "JavaScript Framework"@,
            website: Some("https://svelte.dev"@),
            html: Some(seq![
                PatternView { pattern: r#"svelte-"#@, version: None },
            ]),
            scripts: Some(seq![
                PatternView { pattern: r#"svelte"#@, version: None },
                PatternView { pattern: r#"_app/immutable"#@, version: None },
            ]),
            headers: None,
            meta: None,
            cookies: None,
        },
        TechnologyView {
            name: "Next.js"@,
            category: "JavaScript Framework"@,
            website: Some("https://nextjs.org"@),
            html: Some(seq![
                PatternView { pattern: r#"__NEXT_DATA__"#@, version: None },
                PatternView { pattern: r#"__next"#@, version: None },
            ]),
            scripts: Some(seq![
                PatternView { pattern: r#"/_next/"#@, version: None },
                PatternView { pattern: r#"next\.js"#@, version: None },
            ]),
            headers: Some(seq![
                ("x-powered-by"@, PatternView { pattern: r#"Next\.js ([0-9.]+)"#@, version: Some(r"$1"@) }),
            ]),
            meta: None,
            cookies: None,
        },
        TechnologyView {
            name: "Nuxt.js"@,
            category: "JavaScript Framework"@,
            website: Some("https://nuxt.com"@),
            html: Some(seq![
                PatternView { pattern: r#"__NUXT__"#@, version: None },
                PatternView { pattern: r#"nuxt"#@, version: None },
            ]),
            scripts: Some(seq![
                PatternView { pattern: r#"/_nuxt/"#@, version: None },
                PatternView { pattern: r#"nuxt\.js"#@, version: None },
            ]),
            headers: None,
            meta: None,
            cookies: None,
        },
        TechnologyView {
            name: "Gatsby"@,
            category: "JavaScript Framework"@,
            website: Some("https://www.gatsbyjs.com"@),
            html: Some(seq![
                PatternView { pattern: r#"gatsby"#@, version: None },
            ]),
            scripts: Some(seq![
                PatternView { pattern: r#"gatsby-"#@, version: None },
            ]),
            headers: None,
            meta: Some(seq![
                ("generator"@, PatternView { pattern: r#"Gatsby ([0-9.]+)"#@, version: Some(r"$1"@) }),
            ]),
            cookies: None,
        },
        TechnologyView {
            name: "Ember.js"@,
            category: "JavaScript Framework"@,
            website: Some("https://emberjs.com"@),
            html: Some(seq![
                PatternView { pattern: r#"ember"#@, version: None },
                PatternView { pattern: r#"data-ember-"#@, version: None },
            ]),
            scripts: Some(seq![
                PatternView { pattern: r#"ember\.js"#@, version: None },
            ]),
            headers: None,
            meta: None,
            cookies: None,
        },
        TechnologyView {
            name: "jQuery"@,
            category: "JavaScript Library"@,
            website: Some("https://jquery.com"@),
            html: None,
            scripts: Some(seq![
                PatternView { pattern: r#"jquery[.-]([0-9.]+)"#@, version: Some(r"$1"@) },
                PatternView { pattern: r#"/jquery\.min\.js"#@, version: None },
                PatternView { pattern: r#"jquery\.js"#@, version: None },
            ]),
            headers: None,
            meta: None,
            cookies: None,
        },
        TechnologyView {
            name: "jQuery UI"@,
            category: "JavaScript Library"@,
            website: Some("https://jqueryui.com"@),
            html: Some(seq![
                PatternView { pattern: r#"ui-widget"#@, version: None },
            ]),
            scripts: Some(seq![
                PatternView { pattern: r#"jquery-ui[.-]([0-9.]+)"#@, version: Some(r"$1"@) },
                PatternView { pattern: r#"jquery-ui\.js"#@, version: None },
            ]),
            headers: None,
            meta: None,
            cookies: None,
        },
    ]
}

/// The javascript frameworks signatures.
fn javascript_frameworks_signatures() -> (r: Vec<Technology>)
    ensures
        r.deep_view() == spec_javascript_frameworks_signatures(),
{
    let mut v: Vec<Technology> = Vec::new();

    // React
    v.push(Technology {
        name: "React".to_owned(),
        category: "JavaScript Framework".to_owned(),
        website: Some("https://react.dev".to_owned()),
        html: Some(vec![
            Pattern::new(r#"data-reactroot"#),
            Pattern::new(r#"data-react-helmet"#),
            Pattern::new(r#"data-reactid"#),
            Pattern::new(r#"<div id="root"#),
        ]),
        scripts: Some(vec![
            Pattern::with_version(r#"react@([0-9.]+)"#, r"$1"),
            Pattern::new(r#"/react\..*\.js"#),
            Pattern::new(r#"cdn.*react"#),
            Pattern::new(r#"react-dom"#),
        ]),
        headers: None,
        meta: None,
        cookies: None,
    });

    // Vue.js
    v.push(Technology {
        name: "Vue.js".to_owned(),
        category: "JavaScript Framework".to_owned(),
        website: Some("https://vuejs.org".to_owned()),
        html: Some(vec![
            Pattern::new(r#"data-v-"#),
            Pattern::new(r#"v-cloak"#),
            Pattern::new(r#"v-bind:"#),
            Pattern::new(r#"v-for="#),
            Pattern::new(r#"v-if="#),
        ]),
        scripts: Some(vec![
            Pattern::with_version(r#"vue@([0-9.]+)"#, r"$1"),
            Pattern::new(r#"vue\.js"#),
            Pattern::new(r#"vue\.min\.js"#),
        ]),
        headers: None,
        meta: None,
        cookies: None,
    });

    // Angular
    v.push(Technology {
        name: "Angular".to_owned(),
        category: "JavaScript Framework".to_owned(),
        website: Some("https://angular.io".to_owned()),
        html: Some(vec![
            Pattern::new(r#"ng-"#),
            Pattern::new(r#"\[ng"#),
            Pattern::new(r#"_ngcontent"#),
            Pattern::new(r#"_nghost"#),
        ]),
        scripts: Some(vec![
            Pattern::new(r#"angular\.js"#),
            Pattern::new(r#"@angular/core"#),
        ]),
        headers: None,
        meta: None,
        cookies: None,
    });

    // Svelte
    v.push(Technology {
        name: "Svelte".to_owned(),
        category: "JavaScript Framework".to_owned(),
        website: Some("https://svelte.dev".to_owned()),
        html: Some(vec![Pattern::new(r#"svelte-"#)]),
        scripts: Some(vec![
            Pattern::new(r#"svelte"#),
            Pattern::new(r#"_app/immutable"#),
        ]),
        headers: None,
        meta: None,
        cookies: None,
    });

    // Next.js
    v.push(Technology {
        name: "Next.js".to_owned(),
        category: "JavaScript Framework".to_owned(),
        website: Some("https://nextjs.org".to_owned()),
        html: Some(vec![
            Pattern::new(r#"__NEXT_DATA__"#),
            Pattern::new(r#"__next"#),
        ]),
        scripts: Some(vec![
            Pattern::new(r#"/_next/"#),
            Pattern::new(r#"next\.js"#),
        ]),
        headers: Some(vec![(
            "x-powered-by".to_owned(),
            Pattern::with_version(r#"Next\.js ([0-9.]+)"#, r"$1"),
        )]),
        meta: None,
        cookies: None,
    });

    // Nuxt.js
    v.push(Technology {
        name: "Nuxt.js".to_owned(),
        category: "JavaScript Framework".to_owned(),
        website: Some("https://nuxt.com".to_owned()),
        html: Some(vec![
            Pattern::new(r#"__NUXT__"#),
            Pattern::new(r#"nuxt"#),
        ]),
        scripts: Some(vec![
            Pattern::new(r#"/_nuxt/"#),
            Pattern::new(r#"nuxt\.js"#),
        ]),
        headers: None,
        meta: None,
        cookies: None,
    });

    // Gatsby
    v.push(Technology {
        name: "Gatsby".to_owned(),
        category: "JavaScript Framework".to_owned(),
        website: Some("https://www.gatsbyjs.com".to_owned()),
        html: Some(vec![Pattern::new(r#"gatsby"#)]),
        scripts: Some(vec![Pattern::new(r#"gatsby-"#)]),
        meta: Some(vec![(
            "generator".to_owned(),
            Pattern::with_version(r#"Gatsby ([0-9.]+)"#, r"$1"),
        )]),
        headers: None,
        cookies: None,
    });

    // Ember.js
    v.push(Technology {
        name: "Ember.js".to_owned(),
        category: "JavaScript Framework".to_owned(),
        website: Some("https://emberjs.com".to_owned()),
        html: Some(vec![
            Pattern::new(r#"ember"#),
            Pattern::new(r#"data-ember-"#),
        ]),
        scripts: Some(vec![Pattern::new(r#"ember\.js"#)]),
        headers: None,
        meta: None,
        cookies: None,
    });

    // jQuery
    v.push(Technology {
        name: "jQuery".to_owned(),
        category: "JavaScript Library".to_owned(),
        website: Some("https://jquery.com".to_owned()),
        html: None,
        scripts: Some(vec![
            Pattern::with_version(r#"jquery[.-]([0-9.]+)"#, r"$1"),
            Pattern::new(r#"/jquery\.min\.js"#),
            Pattern::new(r#"jquery\.js"#),
        ]),
        headers: None,
        meta: None,
        cookies: None,
    });

    // jQuery UI
    v.push(Technology {
        name: "jQuery UI".to_owned(),
        category: "JavaScript Library".to_owned(),
        website: Some("https://jqueryui.com".to_owned()),
        html: Some(vec![Pattern::new(r#"ui-widget"#)]),
        scripts: Some(vec![
            Pattern::with_version(r#"jquery-ui[.-]([0-9.]+)"#, r"$1"),
            Pattern::new(r#"jquery-ui\.js"#),
        ]),
        headers: None,
        meta: None,
        cookies: None,
    });

    proof {
        assert(v.deep_view() =~~= spec_javascript_frameworks_signatures());
    }
    v
}


/// Spec-level content of the css frameworks signatures.
pub open spec fn spec_css_frameworks_signatures() -> Seq<TechnologyView> {
    seq![
        TechnologyView {
            name: "Bootstrap"@,
            category: "CSS Framework"@,
            website: Some("https://getbootstrap.com"@),
            html: Some(seq![
                PatternView { pattern: r#"class="[^"]*\bcontainer\b"#@, version: None },
                PatternView { pattern: r#"class="[^"]*\brow\b"#@, version: None },
                PatternView { pattern: r#"class="[^"]*\bcol-"#@, version: None },
                PatternView { pattern: r#"class="[^"]*\bbtn\b"#@, version: None },
            ]),
            scripts: Some(seq![
                PatternView { pattern: r#"bootstrap[.-]([0-9.]+)"#@, version: Some(r"$1"@) },
            ]),
            headers: None,
            meta: None,
            cookies: None,
        },
        TechnologyView {
            name: "Tailwind CSS"@,
            category: "CSS Framework"@,
            website: Some("https://tailwindcss.com"@),
            html: Some(seq![
                PatternView { pattern: r#"class="[^"]*\b(flex|grid|hidden|block|inline)\b"#@, version: None },
                PatternView { pattern: r#"class="[^"]*\b(bg-|text-|border-|rounded-|shadow-)"#@, version: None },
                PatternView { pattern: r#"class="[^"]*\b(px-|py-|pt-|pb-|pl-|pr-|m-|mx-|my-)"#@, version: None },
            ]),
            scripts: None,
            headers: None,
            meta: None,
            cookies: None,
        },
        TechnologyView {
            name: "Foundation"@,
            category: "CSS Framework"@,
            website: Some("https://get.foundation"@),
            html: Some(seq![
                PatternView { pattern: r#"foundation"#@, version: None },
                PatternView { pattern: r#"class="[^"]*\bfoundation\b"#@, version: None },
            ]),
            scripts: Some(seq![
                PatternView { pattern: r#"foundation[.-]([0-9.]+)"#@, version: Some(r"$1"@) },
            ]),
            headers: None,
            meta: None,
            cookies: None,
        },
        TechnologyView {
            name: "Bulma"@,
            category: "CSS Framework"@,
            website: Some("https://bulma.io"@),
            html: Some(seq![
                PatternView { pattern: r#"class="[^"]*\bbulma\b"#@, version: None },
                PatternView { pattern: r#"class="[^"]*\bcolumns\b"#@, version: None },
            ]),
            scripts: None,
            headers: None,
            meta: None,
            cookies: None,
        },
        TechnologyView {
            name: "Material-UI"@,
            category: "CSS Framework"@,
            website: Some("https://mui.com"@),
            html: Some(seq![
                PatternView { pattern: r#"class="[^"]*\bMui"#@, version: None },
                PatternView { pattern: r#"makeStyles"#@, version: None },
            ]),
            scripts: Some(seq![
                PatternView { pattern: r#"@material-ui"#@, version: None },
            ]),
            headers: None,
            meta: None,
            cookies: None,
        },
    ]
}

/// The css frameworks signatures.
fn css_frameworks_signatures() -> (r: Vec<Technology>)
    ensures
        r.deep_view() == spec_css_frameworks_signatures(),
{
    let mut v: Vec<Technology> = Vec::new();

    // Bootstrap
    v.push(Technology {
        name: "Bootstrap".to_owned(),
        category: "CSS Framework".to_owned(),
        website: Some("https://getbootstrap.com".to_owned()),
        html: Some(vec![
            Pattern::new(r#"class="[^"]*\bcontainer\b"#),
            Pattern::new(r#"class="[^"]*\brow\b"#),
            Pattern::new(r#"class="[^"]*\bcol-"#),
            Pattern::new(r#"class="[^"]*\bbtn\b"#),
        ]),
        scripts: Some(vec![Pattern::with_version(
            r#"bootstrap[.-]([0-9.]+)"#,
            r"$1",
        )]),
        headers: None,
        meta: None,
        cookies: None,
    });

    // Tailwind CSS
    v.push(Technology {
        name: "Tailwind CSS".to_owned(),
        category: "CSS Framework".to_owned(),
        website: Some("https://tailwindcss.com".to_owned()),
        html: Some(vec![
            Pattern::new(r#"class="[^"]*\b(flex|grid|hidden|block|inline)\b"#),
            Pattern::new(r#"class="[^"]*\b(bg-|text-|border-|rounded-|shadow-)"#),
            Pattern::new(r#"class="[^"]*\b(px-|py-|pt-|pb-|pl-|pr-|m-|mx-|my-)"#),
        ]),
        scripts: None,
        headers: None,
        meta: None,
        cookies: None,
    });

    // Foundation
    v.push(Technology {
        name: "Foundation".to_owned(),
        category: "CSS Framework".to_owned(),
        website: Some("https://get.foundation".to_owned()),
        html: Some(vec![
            Pattern::new(r#"foundation"#),
            Pattern::new(r#"class="[^"]*\bfoundation\b"#),
        ]),
        scripts: Some(vec![Pattern::with_version(
            r#"foundation[.-]([0-9.]+)"#,
            r"$1",
        )]),
        headers: None,
        meta: None,
        cookies: None,
    });

    // Bulma
    v.push(Technology {
        name: "Bulma".to_owned(),
        category: "CSS Framework".to_owned(),
        website: Some("https://bulma.io".to_owned()),
        html: Some(vec![
            Pattern::new(r#"class="[^"]*\bbulma\b"#),
            Pattern::new(r#"class="[^"]*\bcolumns\b"#),
        ]),
        scripts: None,
        headers: None,
        meta: None,
        cookies: None,
    });

    // Material UI
    v.push(Technology {
        name: "Material-UI".to_owned(),
        category: "CSS Framework".to_owned(),
        website: Some("https://mui.com".to_owned()),
        html: Some(vec![
            Pattern::new(r#"class="[^"]*\bMui"#),
            Pattern::new(r#"makeStyles"#),
        ]),
        scripts: Some(vec![Pattern::new(r#"@material-ui"#)]),
        headers: None,
        meta: None,
        cookies: None,
    });

    proof {
        assert(v.deep_view() =~~= spec_css_frameworks_signatures());
    }
    v
}


/// Spec-level content of the analytics signatures.
pub open spec fn spec_analytics_signatures() -> Seq<TechnologyView> {
    seq![
        TechnologyView {
            name: "Google Analytics"@,
            category: "Analytics"@,
            website: Some("https://analytics.google.com"@),
            html: Some(seq![
                PatternView { pattern: r#"google-analytics\.com/analytics\.js"#@, version: None },
                PatternView { pattern: r#"googletagmanager\.com/gtag/js"#@, version: None },
                PatternView { pattern: r#"GoogleAnalyticsObject.*ga\('create',.*'(UA-[^']+)"#@, version: Some(r"$1"@) },
                PatternView { pattern: r#"gtag\("#@, version: None },
            ]),
            scripts: Some(seq![
                PatternView { pattern: r#"google-analytics\.com"#@, version: None },
                PatternView { pattern: r#"gtag/js"#@, version: None },
                PatternView { pattern: r#"analytics\.js"#@, version: None },
            ]),
            headers: None,
            meta: None,
            cookies: Some(seq![
                ("_ga"@, PatternView { pattern: r"."@, version: None }),
                ("_gid"@, PatternView { pattern: r"."@, version: None }),
                ("_gat"@, PatternView { pattern: r"."@, version: None }),
            ]),
        },
        TechnologyView {
            name: "Google Tag Manager"@,
            category: "Tag Manager"@,
            website: Some("https://tagmanager.google.com"@),
            html: Some(seq![
                PatternView { pattern: r#"googletagmanager\.com/gtm\.js"#@, version: None },
                PatternView { pattern: r#"GTM-"#@, version: None },
            ]),
            scripts: Some(seq![
                PatternView { pattern: r#"googletagmanager\.com/gtm\.js"#@, version: None },
            ]),
            headers: None,
            meta: None,
            cookies: None,
        },
        TechnologyView {
            name: "Adobe Analytics"@,
            category: "Analytics"@,
            website: Some("https://www.adobe.com/analytics"@),
            html: Some(seq![
                PatternView { pattern: r#"omniture"#@, version: None },
                PatternView { pattern: r#"s_code\.js"#@, version: None },
            ]),
            scripts: Some(seq![
                PatternView { pattern: r#"omtrdc\.net"#@, version: None },
                PatternView { pattern: r#"s_code\.js"#@, version: None },
            ]),
            headers: None,
            meta: None,
            cookies: None,
        },
        TechnologyView {
            name: "Mixpanel"@,
            category: "Analytics"@,
            website: Some("https://mixpanel.com"@),
            html: Some(seq![
                PatternView { pattern: r#"mixpanel"#@, version: None },
            ]),
            scripts: Some(seq![
                PatternView { pattern: r#"mixpanel\.com"#@, version: None },
            ]),
            headers: None,
            meta: None,
            cookies: None,
        },
        TechnologyView {
            name: "Segment"@,
            category: "Analytics"@,
            website: Some("https://segment.com"@),
            html: Some(seq![
                PatternView { pattern: r#"analytics\.js"#@, version: None },
            ]),
            scripts: Some(seq![
                PatternView { pattern: r#"cdn\.segment\.com"#@, version: None },
            ]),
            headers: None,
            meta: None,
            cookies: None,
        },
        TechnologyView {
            name: "Hotjar"@,
            category: "Analytics"@,
            website: Some("https://www.hotjar.com"@),
            html: Some(seq![
                PatternView { pattern: r#"hotjar"#@, version: None },
            ]),
            scripts: Some(seq![
                PatternView { pattern: r#"static\.hotjar\.com"#@, version: None },
            ]),
            headers: None,
            meta: None,
            cookies: Some(seq![
                ("_hjid"@, PatternView { pattern: r"."@, version: None }),
            ]),
        },
    ]
}

/// The analytics signatures.
fn analytics_signatures() -> (r: Vec<Technology>)
    ensures
        r.deep_view() == spec_analytics_signatures(),
{
    let mut v: Vec<Technology> = Vec::new();

    // Google Analytics
    v.push(Technology {
        name: "Google Analytics".to_owned(),
        category: "Analytics".to_owned(),
        website: Some("https://analytics.google.com".to_owned()),
        html: Some(vec![
            Pattern::new(r#"google-analytics\.com/analytics\.js"#),
            Pattern::new(r#"googletagmanager\.com/gtag/js"#),
            Pattern::with_version(r#"GoogleAnalyticsObject.*ga\('create',.*'(UA-[^']+)"#, r"$1"),
            Pattern::new(r#"gtag\("#),
        ]),
        scripts: Some(vec![
            Pattern::new(r#"google-analytics\.com"#),
            Pattern::new(r#"gtag/js"#),
            Pattern::new(r#"analytics\.js"#),
        ]),
        headers: None,
        meta: None,
        cookies: Some(vec![
            ("_ga".to_owned(), Pattern::new(r".")),
            ("_gid".to_owned(), Pattern::new(r".")),
            ("_gat".to_owned(), Pattern::new(r".")),
        ]),
    });

    // Google Tag Manager
    v.push(Technology {
        name: "Google Tag Manager".to_owned(),
        category: "Tag Manager".to_owned(),
        website: Some("https://tagmanager.google.com".to_owned()),
        html: Some(vec![
            Pattern::new(r#"googletagmanager\.com/gtm\.js"#),
            Pattern::new(r#"GTM-"#),
        ]),
        scripts: Some(vec![Pattern::new(r#"googletagmanager\.com/gtm\.js"#)]),
        headers: None,
        meta: None,
        cookies: None,
    });

    // Adobe Analytics
    v.push(Technology {
        name: "Adobe Analytics".to_owned(),
        category: "Analytics".to_owned(),
        website: Some("https://www.adobe.com/analytics".to_owned()),
        html: Some(vec![
            Pattern::new(r#"omniture"#),
            Pattern::new(r#"s_code\.js"#),
        ]),
        scripts: Some(vec![
            Pattern::new(r#"omtrdc\.net"#),
            Pattern::new(r#"s_code\.js"#),
        ]),
        headers: None,
        meta: None,
        cookies: None,
    });

    // Mixpanel
    v.push(Technology {
        name: "Mixpanel".to_owned(),
        category: "Analytics".to_owned(),
        website: Some("https://mixpanel.com".to_owned()),
        html: Some(vec![Pattern::new(r#"mixpanel"#)]),
        scripts: Some(vec![Pattern::new(r#"mixpanel\.com"#)]),
        headers: None,
        meta: None,
        cookies: None,
    });

    // Segment
    v.push(Technology {
        name: "Segment".to_owned(),
        category: "Analytics".to_owned(),
        website: Some("https://segment.com".to_owned()),
        html: Some(vec![Pattern::new(r#"analytics\.js"#)]),
        scripts: Some(vec![Pattern::new(r#"cdn\.segment\.com"#)]),
        headers: None,
        meta: None,
        cookies: None,
    });

    // Hotjar
    v.push(Technology {
        name: "Hotjar".to_owned(),
        category: "Analytics".to_owned(),
        website: Some("https://www.hotjar.com".to_owned()),
        html: Some(vec![Pattern::new(r#"hotjar"#)]),
        scripts: Some(vec![Pattern::new(r#"static\.hotjar\.com"#)]),
        headers: None,
        meta: None,
        cookies: Some(vec![(
            "_hjid".to_owned(),
            Pattern::new(r"."),
        )]),
    });

    proof {
        assert(v.deep_view() =~~= spec_analytics_signatures());
    }
    v
}


/// Spec-level content of the advertising signatures.
pub open spec fn spec_advertising_signatures() -> Seq<TechnologyView> {
    seq![
        TechnologyView {
            name: "Google Ads"@,
            category: "Advertising"@,
            website: Some("https://ads.google.com"@),
            html: Some(seq![
                PatternView { pattern: r#"googleadservices\.com"#@, version: None },
                PatternView { pattern: r#"googlesyndication\.com"#@, version: None },
            ]),
            scripts: Some(seq![
                PatternView { pattern: r#"googleadservices\.com"#@, version: None },
                PatternView { pattern: r#"pagead2\.googlesyndication\.com"#@, version: None },
            ]),
            headers: None,
            meta: None,
            cookies: None,
        },
        TechnologyView {
            name: "Facebook Pixel"@,
            category: "Advertising"@,
            website: Some("https://www.facebook.com/business/tools/meta-pixel"@),
            html: Some(seq![
                PatternView { pattern: r#"fbq\("#@, version: None },
                PatternView { pattern: r#"facebook\.com/tr"#@, version: None },
            ]),
            scripts: Some(seq![
                PatternView { pattern: r#"connect\.facebook\.net"#@, version: None },
            ]),
            headers: None,
            meta: None,
            cookies: None,
        },
    ]
}

/// The advertising signatures.
fn advertising_signatures() -> (r: Vec<Technology>)
    ensures
        r.deep_view() == spec_advertising_signatures(),
{
    let mut v: Vec<Technology> = Vec::new();

    // Google Ads
    v.push(Technology {
        name: "Google Ads".to_owned(),
        category: "Advertising".to_owned(),
        website: Some("https://ads.google.com".to_owned()),
        html: Some(vec![
            Pattern::new(r#"googleadservices\.com"#),
            Pattern::new(r#"googlesyndication\.com"#),
        ]),
        scripts: Some(vec![
            Pattern::new(r#"googleadservices\.com"#),
            Pattern::new(r#"pagead2\.googlesyndication\.com"#),
        ]),
        headers: None,
        meta: None,
        cookies: None,
    });

    // Facebook Pixel
    v.push(Technology {
        name: "Facebook Pixel".to_owned(),
        category: "Advertising".to_owned(),
        website: Some("https://www.facebook.com/business/tools/meta-pixel".to_owned()),
        html: Some(vec![
            Pattern::new(r#"fbq\("#),
            Pattern::new(r#"facebook\.com/tr"#),
        ]),
        scripts: Some(vec![Pattern::new(r#"connect\.facebook\.net"#)]),
        headers: None,
        meta: None,
        cookies: None,
    });

    proof {
        assert(v.deep_view() =~~= spec_advertising_signatures());
    }
    v
}


/// Spec-level content of the cdn signatures.
pub open spec fn spec_cdn_signatures() -> Seq<TechnologyView> {
    seq![
        TechnologyView {
            name: "Cloudflare"@,
            category: "CDN"@,
            website: Some("https://www.cloudflare.com"@),
            html: None,
            scripts: None,
            headers: Some(seq![
                ("server"@, PatternView { pattern: r"cloudflare"@, version: None }),
                ("cf-ray"@, PatternView { pattern: r"."@, version: None }),
                ("cf-cache-status"@, PatternView { pattern: r"."@, version: None }),
            ]),
            meta: None,
            cookies: Some(seq![
                ("__cfduid"@, PatternView { pattern: r"."@, version: None }),
            ]),
        },
        TechnologyView {
            name: "Fastly"@,
            category: "CDN"@,
            website: Some("https://www.fastly.com"@),
            html: None,
            scripts: None,
            headers: Some(seq![
                ("x-served-by"@, PatternView { pattern: r"cache-"@, version: None }),
                ("fastly-"@, PatternView { pattern: r"."@, version: None }),
            ]),
            meta: None,
            cookies: None,
        },
        TechnologyView {
            name: "Amazon CloudFront"@,
            category: "CDN"@,
            website: Some("https://aws.amazon.com/cloudfront/"@),
            html: None,
            scripts: None,
            headers: Some(seq![
                ("x-amz-cf-id"@, PatternView { pattern: r"."@, version: None }),
                ("via"@, PatternView { pattern: r"cloudfront"@, version: None }),
            ]),
            meta: None,
            cookies: None,
        },
        TechnologyView {
            name: "Akamai"@,
            category: "CDN"@,
            website: Some("https://www.akamai.com"@),
            html: None,
            scripts: None,
            headers: Some(seq![
                ("x-akamai-"@, PatternView { pattern: r"."@, version: None }),
                ("akamai-"@, PatternView { pattern: r"."@, version: None }),
            ]),
            meta: None,
            cookies: None,
        },
    ]
}

/// The cdn signatures.
fn cdn_signatures() -> (r: Vec<Technology>)
    ensures
        r.deep_view() == spec_cdn_signatures(),
{
    let mut v: Vec<Technology> = Vec::new();

    // Cloudflare
    v.push(Technology {
        name: "Cloudflare".to_owned(),
        category: "CDN".to_owned(),
        website: Some("https://www.cloudflare.com".to_owned()),
        html: None,
        scripts: None,
        headers: Some(vec![
            ("server".to_owned(), Pattern::new(r"cloudflare")),
            ("cf-ray".to_owned(), Pattern::new(r".")),
            ("cf-cache-status".to_owned(), Pattern::new(r".")),
        ]),
        meta: None,
        cookies: Some(vec![(
            "__cfduid".to_owned(),
            Pattern::new(r"."),
        )]),
    });

    // Fastly
    v.push(Technology {
        name: "Fastly".to_owned(),
        category: "CDN".to_owned(),
        website: Some("https://www.fastly.com".to_owned()),
        html: None,
        scripts: None,
        headers: Some(vec![
            ("x-served-by".to_owned(), Pattern::new(r"cache-")),
            ("fastly-".to_owned(), Pattern::new(r".")),
        ]),
        meta: None,
        cookies: None,
    });

    // Amazon CloudFront
    v.push(Technology {
        name: "Amazon CloudFront".to_owned(),
        category: "CDN".to_owned(),
        website: Some("https://aws.amazon.com/cloudfront/".to_owned()),
        html: None,
        scripts: None,
        headers: Some(vec![
            ("x-amz-cf-id".to_owned(), Pattern::new(r".")),
            ("via".to_owned(), Pattern::new(r"cloudfront")),
        ]),
        meta: None,
        cookies: None,
    });

    // Akamai
    v.push(Technology {
        name: "Akamai".to_owned(),
        category: "CDN".to_owned(),
        website: Some("https://www.akamai.com".to_owned()),
        html: None,
        scripts: None,
        headers: Some(vec![
            ("x-akamai-".to_owned(), Pattern::new(r".")),
            ("akamai-".to_owned(), Pattern::new(r".")),
        ]),
        meta: None,
        cookies: None,
    });

    proof {
        assert(v.deep_view() =~~= spec_cdn_signatures());
    }
    v
}


/// Spec-level content of the web servers signatures.
pub open spec fn spec_web_servers_signatures() -> Seq<TechnologyView> {
    seq![
        TechnologyView {
            name: "Nginx"@,
            category: "Web Server"@,
            website: Some("https://nginx.org"@),
            html: None,
            scripts: None,
            headers: Some(seq![
                ("server"@, PatternView { pattern: r#"nginx/([0-9.]+)"#@, version: Some(r"$1"@) }),
            ]),
            meta: None,
            cookies: None,
        },
        TechnologyView {
            name: "Apache"@,
            category: "Web Server"@,
            website: Some("https://apache.org"@),
            html: None,
            scripts: None,
            headers: Some(seq![
                ("server"@, PatternView { pattern: r#"Apache/([0-9.]+)"#@, version: Some(r"$1"@) }),
            ]),
            meta: None,
            cookies: None,
        },
        TechnologyView {
            name: "Microsoft IIS"@,
            category: "Web Server"@,
            website: Some("https://www.iis.net"@),
            html: None,
            scripts: None,
            headers: Some(seq![
                ("server"@, PatternView { pattern: r#"Microsoft-IIS/([0-9.]+)"#@, version: Some(r"$1"@) }),
                ("x-aspnet-version"@, PatternView { pattern: r"."@, version: None }),
            ]),
            meta: None,
            cookies: None,
        },
        TechnologyView {
            name: "LiteSpeed"@,
            category: "Web Server"@,
            website: Some("https://www.litespeedtech.com"@),
            html: None,
            scripts: None,
            headers: Some(seq![
                ("server"@, PatternView { pattern: r#"LiteSpeed/([0-9.]+)"#@, version: Some(r"$1"@) }),
            ]),
            meta: None,
            cookies: None,
        },
    ]
}

/// The web servers signatures.
fn web_servers_signatures() -> (r: Vec<Technology>)
    ensures
        r.deep_view() == spec_web_servers_signatures(),
{
    let mut v: Vec<Technology> = Vec::new();

    // Nginx
    v.push(Technology {
        name: "Nginx".to_owned(),
        category: "Web Server".to_owned(),
        website: Some("https://nginx.org".to_owned()),
        html: None,
        scripts: None,
        headers: Some(vec![(
            "server".to_owned(),
            Pattern::with_version(r#"nginx/([0-9.]+)"#, r"$1"),
        )]),
        meta: None,
        cookies: None,
    });

    // Apache
    v.push(Technology {
        name: "Apache".to_owned(),
        category: "Web Server".to_owned(),
        website: Some("https://apache.org".to_owned()),
        html: None,
        scripts: None,
        headers: Some(vec![(
            "server".to_owned(),
            Pattern::with_version(r#"Apache/([0-9.]+)"#, r"$1"),
        )]),
        meta: None,
        cookies: None,
    });

    // Microsoft IIS
    v.push(Technology {
        name: "Microsoft IIS".to_owned(),
        category: "Web Server".to_owned(),
        website: Some("https://www.iis.net".to_owned()),
        html: None,
        scripts: None,
        headers: Some(vec![
            (
                "server".to_owned(),
                Pattern::with_version(r#"Microsoft-IIS/([0-9.]+)"#, r"$1"),
            ),
            ("x-aspnet-version".to_owned(), Pattern::new(r".")),
        ]),
        meta: None,
        cookies: None,
    });

    // LiteSpeed
    v.push(Technology {
        name: "LiteSpeed".to_owned(),
        category: "Web Server".to_owned(),
        website: Some("https://www.litespeedtech.com".to_owned()),
        html: None,
        scripts: None,
        headers: Some(vec![(
            "server".to_owned(),
            Pattern::with_version(r#"LiteSpeed/([0-9.]+)"#, r"$1"),
        )]),
        meta: None,
        cookies: None,
    });

    proof {
        assert(v.deep_view() =~~= spec_web_servers_signatures());
    }
    v
}


/// Spec-level content of the programming languages signatures.
pub open spec fn spec_programming_languages_signatures() -> Seq<TechnologyView> {
    seq![
        TechnologyView {
            name: "PHP"@,
            category: "Programming Language"@,
            website: Some("https://php.net"@),
            html: Some(seq![
                PatternView { pattern: r#"\.php"#@, version: None },
            ]),
            scripts: None,
            headers: Some(seq![
                ("x-powered-by"@, PatternView { pattern: r#"PHP/([0-9.]+)"#@, version: Some(r"$1"@) }),
                ("server"@, PatternView { pattern: r"PHP"@, version: None }),
            ]),
            meta: None,
            cookies: Some(seq![
                ("PHPSESSID"@, PatternView { pattern: r"."@, version: None }),
            ]),
        },
        TechnologyView {
            name: "Node.js"@,
            category: "Programming Language"@,
            website: Some("https://nodejs.org"@),
            html: None,
            scripts: None,
            headers: Some(seq![
                ("x-powered-by"@, PatternView { pattern: r"Express"@, version: None }),
            ]),
            meta: None,
            cookies: None,
        },
        TechnologyView {
            name: "Python"@,
            category: "Programming Language"@,
            website: Some("https://python.org"@),
            html: None,
            scripts: None,
            headers: Some(seq![
                ("server"@, PatternView { pattern: r"Python"@, version: None }),
            ]),
            meta: None,
            cookies: None,
        },
        TechnologyView {
            name: "ASP.NET"@,
            category: "Programming Language"@,
            website: Some("https://dotnet.microsoft.com/apps/aspnet"@),
            html: Some(seq![
                PatternView { pattern: r#"__VIEWSTATE"#@, version: None },
                PatternView { pattern: r#"aspx"#@, version: None },
            ]),
            scripts: Some(seq![
                PatternView { pattern: r#"WebResource\.axd"#@, version: None },
            ]),
            headers: Some(seq![
                ("x-aspnet-version"@, PatternView { pattern: r"."@, version: None }),
                ("x-aspnetmvc-version"@, PatternView { pattern: r"."@, version: None }),
            ]),
            meta: None,
            cookies: Some(seq![
                ("ASP.NET_SessionId"@, PatternView { pattern: r"."@, version: None }),
            ]),
        },
        TechnologyView {
            name: "Ruby on Rails"@,
            category: "Web Framework"@,
            website: Some("https://rubyonrails.org"@),
            html: None,
            scripts: None,
            headers: Some(seq![
                ("x-powered-by"@, PatternView { pattern: r"Phusion Passenger"@, version: None }),
            ]),
            meta: None,
            cookies: Some(seq![
                ("_session_id"@, PatternView { pattern: r"."@, version: None }),
            ]),
        },
        TechnologyView {
            name: "Django"@,
            category: "Web Framework"@,
            website: Some("https://www.djangoproject.com"@),
            html: None,
            scripts: None,
            headers: Some(seq![
                ("x-frame-options"@, PatternView { pattern: r"DENY"@, version: None }),
            ]),
            meta: None,
            cookies: Some(seq![
                ("csrftoken"@, PatternView { pattern: r"."@, version: None }),
            ]),
        },
        TechnologyView {
            name: "Express"@,
            category: "Web Framework"@,
            website: Some("https://expressjs.com"@),
            html: None,
            scripts: None,
            headers: Some(seq![
                ("x-powered-by"@, PatternView { pattern: r"Express"@, version: None }),
            ]),
            meta: None,
            cookies: None,
        },
    ]
}

/// The programming languages signatures.
fn programming_languages_signatures() -> (r: Vec<Technology>)
    ensures
        r.deep_view() == spec_programming_languages_signatures(),
{
    let mut v: Vec<Technology> = Vec::new();

    // PHP
    v.push(Technology {
        name: "PHP".to_owned(),
        category: "Programming Language".to_owned(),
        website: Some("https://php.net".to_owned()),
        html: Some(vec![Pattern::new(r#"\.php"#)]),
        scripts: None,
        headers: Some(vec![
            (
                "x-powered-by".to_owned(),
                Pattern::with_version(r#"PHP/([0-9.]+)"#, r"$1"),
            ),
            ("server".to_owned(), Pattern::new(r"PHP")),
        ]),
        meta: None,
        cookies: Some(vec![(
            "PHPSESSID".to_owned(),
            Pattern::new(r"."),
        )]),
    });

    // Node.js
    v.push(Technology {
        name: "Node.js".to_owned(),
        category: "Programming Language".to_owned(),
        website: Some("https://nodejs.org".to_owned()),
        html: None,
        scripts: None,
        headers: Some(vec![(
            "x-powered-by".to_owned(),
            Pattern::new(r"Express"),
        )]),
        meta: None,
        cookies: None,
    });

    // Python
    v.push(Technology {
        name: "Python".to_owned(),
        category: "Programming Language".to_owned(),
        website: Some("https://python.org".to_owned()),
        html: None,
        scripts: None,
        headers: Some(vec![(
            "server".to_owned(),
            Pattern::new(r"Python"),
        )]),
        meta: None,
        cookies: None,
    });

    // ASP.NET
    v.push(Technology {
        name: "ASP.NET".to_owned(),
        category: "Programming Language".to_owned(),
        website: Some("https://dotnet.microsoft.com/apps/aspnet".to_owned()),
        html: Some(vec![
            Pattern::new(r#"__VIEWSTATE"#),
            Pattern::new(r#"aspx"#),
        ]),
        scripts: Some(vec![Pattern::new(r#"WebResource\.axd"#)]),
        headers: Some(vec![
            ("x-aspnet-version".to_owned(), Pattern::new(r".")),
            (
                "x-aspnetmvc-version".to_owned(),
                Pattern::new(r"."),
            ),
        ]),
        meta: None,
        cookies: Some(vec![(
            "ASP.NET_SessionId".to_owned(),
            Pattern::new(r"."),
        )]),
    });

    // Ruby on Rails
    v.push(Technology {
        name: "Ruby on Rails".to_owned(),
        category: "Web Framework".to_owned(),
        website: Some("https://rubyonrails.org".to_owned()),
        html: None,
        scripts: None,
        headers: Some(vec![(
            "x-powered-by".to_owned(),
            Pattern::new(r"Phusion Passenger"),
        )]),
        meta: None,
        cookies: Some(vec![(
            "_session_id".to_owned(),
            Pattern::new(r"."),
        )]),
    });

    // Django
    v.push(Technology {
        name: "Django".to_owned(),
        category: "Web Framework".to_owned(),
        website: Some("https://www.djangoproject.com".to_owned()),
        html: None,
        scripts: None,
        headers: Some(vec![(
            "x-frame-options".to_owned(),
            Pattern::new(r"DENY"),
        )]),
        meta: None,
        cookies: Some(vec![(
            "csrftoken".to_owned(),
            Pattern::new(r"."),
        )]),
    });

    // Express
    v.push(Technology {
        name: "Express".to_owned(),
        category: "Web Framework".to_owned(),
        website: Some("https://expressjs.com".to_owned()),
        html: None,
        scripts: None,
        headers: Some(vec![(
            "x-powered-by".to_owned(),
            Pattern::new(r"Express"),
        )]),
        meta: None,
        cookies: None,
    });

    proof {
        assert(v.deep_view() =~~= spec_programming_languages_signatures());
    }
    v
}


/// Spec-level content of the payment processors signatures.
pub open spec fn spec_payment_processors_signatures() -> Seq<TechnologyView> {
    seq![
        TechnologyView {
            name: "Stripe"@,
            category: "Payment Processor"@,
            website: Some("https://stripe.com"@),
            html: Some(seq![
                PatternView { pattern: r#"stripe"#@, version: None },
            ]),
            scripts: Some(seq![
                PatternView { pattern: r#"js\.stripe\.com"#@, version: None },
            ]),
            headers: None,
            meta: None,
            cookies: None,
        },
        TechnologyView {
            name: "PayPal"@,
            category: "Payment Processor"@,
            website: Some("https://www.paypal.com"@),
            html: Some(seq![
                PatternView { pattern: r#"paypal"#@, version: None },
            ]),
            scripts: Some(seq![
                PatternView { pattern: r#"paypal\.com"#@, version: None },
            ]),
            headers: None,
            meta: None,
            cookies: None,
        },
        TechnologyView {
            name: "Square"@,
            category: "Payment Processor"@,
            website: Some("https://squareup.com"@),
            html: Some(seq![
                PatternView { pattern: r#"square"#@, version: None },
            ]),
            scripts: Some(seq![
                PatternView { pattern: r#"squareup\.com"#@, version: None },
            ]),
            headers: None,
            meta: None,
            cookies: None,
        },
    ]
}

/// The payment processors signatures.
fn payment_processors_signatures() -> (r: Vec<Technology>)
    ensures
        r.deep_view() == spec_payment_processors_signatures(),
{
    let mut v: Vec<Technology> = Vec::new();

    // Stripe
    v.push(Technology {
        name: "Stripe".to_owned(),
        category: "Payment Processor".to_owned(),
        website: Some("https://stripe.com".to_owned()),
        html: Some(vec![Pattern::new(r#"stripe"#)]),
        scripts: Some(vec![Pattern::new(r#"js\.stripe\.com"#)]),
        headers: None,
        meta: None,
        cookies: None,
    });

    // PayPal
    v.push(Technology {
        name: "PayPal".to_owned(),
        category: "Payment Processor".to_owned(),
        website: Some("https://www.paypal.com".to_owned()),
        html: Some(vec![Pattern::new(r#"paypal"#)]),
        scripts: Some(vec![Pattern::new(r#"paypal\.com"#)]),
        headers: None,
        meta: None,
        cookies: None,
    });

    // Square
    v.push(Technology {
        name: "Square".to_owned(),
        category: "Payment Processor".to_owned(),
        website: Some("https://squareup.com".to_owned()),
        html: Some(vec![Pattern::new(r#"square"#)]),
        scripts: Some(vec![Pattern::new(r#"squareup\.com"#)]),
        headers: None,
        meta: None,
        cookies: None,
    });

    proof {
        assert(v.deep_view() =~~= spec_payment_processors_signatures());
    }
    v
}


/// Spec-level content of the chat & support signatures.
pub open spec fn spec_chat_support_signatures() -> Seq<TechnologyView> {
    seq![
        TechnologyView {
            name: "Intercom"@,
            category: "Live Chat"@,
            website: Some("https://www.intercom.com"@),
            html: Some(seq![
                PatternView { pattern: r#"intercom"#@, version: None },
            ]),
            scripts: Some(seq![
                PatternView { pattern: r#"widget\.intercom\.io"#@, version: None },
            ]),
            headers: None,
            meta: None,
            cookies: None,
        },
        TechnologyView {
            name: "Zendesk"@,
            category: "Customer Support"@,
            website: Some("https://www.zendesk.com"@),
            html: Some(seq![
                PatternView { pattern: r#"zendesk"#@, version: None },
            ]),
            scripts: Some(seq![
                PatternView { pattern: r#"zendesk\.com"#@, version: None },
            ]),
            headers: None,
            meta: None,
            cookies: None,
        },
        TechnologyView {
            name: "Drift"@,
            category: "Live Chat"@,
            website: Some("https://www.drift.com"@),
            html: Some(seq![
                PatternView { pattern: r#"drift"#@, version: None },
            ]),
            scripts: Some(seq![
                PatternView { pattern: r#"js\.driftt\.com"#@, version: None },
            ]),
            headers: None,
            meta: None,
            cookies: None,
        },
        TechnologyView {
            name: "LiveChat"@,
            category: "Live Chat"@,
            website: Some("https://www.livechat.com"@),
            html: Some(seq![
                PatternView { pattern: r#"livechat"#@, version: None },
            ]),
            scripts: Some(seq![
                PatternView { pattern: r#"cdn\.livechatinc\.com"#@, version: None },
            ]),
            headers: None,
            meta: None,
            cookies: None,
        },
        TechnologyView {
            name: "Tawk.to"@,
            category: "Live Chat"@,
            website: Some("https://www.tawk.to"@),
            html: Some(seq![
                PatternView { pattern: r#"tawk"#@, version: None },
            ]),
            scripts: Some(seq![
                PatternView { pattern: r#"embed\.tawk\.to"#@, version: None },
            ]),
            headers: None,
            meta: None,
            cookies: None,
        },
    ]
}

/// The chat & support signatures.
fn chat_support_signatures() -> (r: Vec<Technology>)
    ensures
        r.deep_view() == spec_chat_support_signatures(),
{
    let mut v: Vec<Technology> = Vec::new();

    // Intercom
    v.push(Technology {
        name: "Intercom".to_owned(),
        category: "Live Chat".to_owned(),
        website: Some("https://www.intercom.com".to_owned()),
        html: Some(vec![Pattern::new(r#"intercom"#)]),
        scripts: Some(vec![Pattern::new(r#"widget\.intercom\.io"#)]),
        headers: None,
        meta: None,
        cookies: None,
    });

    // Zendesk
    v.push(Technology {
        name: "Zendesk".to_owned(),
        category: "Customer Support".to_owned(),
        website: Some("https://www.zendesk.com".to_owned()),
        html: Some(vec![Pattern::new(r#"zendesk"#)]),
        scripts: Some(vec![Pattern::new(r#"zendesk\.com"#)]),
        headers: None,
        meta: None,
        cookies: None,
    });

    // Drift
    v.push(Technology {
        name: "Drift".to_owned(),
        category: "Live Chat".to_owned(),
        website: Some("https://www.drift.com".to_owned()),
        html: Some(vec![Pattern::new(r#"drift"#)]),
        scripts: Some(vec![Pattern::new(r#"js\.driftt\.com"#)]),
        headers: None,
        meta: None,
        cookies: None,
    });

    // LiveChat
    v.push(Technology {
        name: "LiveChat".to_owned(),
        category: "Live Chat".to_owned(),
        website: Some("https://www.livechat.com".to_owned()),
        html: Some(vec![Pattern::new(r#"livechat"#)]),
        scripts: Some(vec![Pattern::new(r#"cdn\.livechatinc\.com"#)]),
        headers: None,
        meta: None,
        cookies: None,
    });

    // Tawk.to
    v.push(Technology {
        name: "Tawk.to".to_owned(),
        category: "Live Chat".to_owned(),
        website: Some("https://www.tawk.to".to_owned()),
        html: Some(vec![Pattern::new(r#"tawk"#)]),
        scripts: Some(vec![Pattern::new(r#"embed\.tawk\.to"#)]),
        headers: None,
        meta: None,
        cookies: None,
    });

    proof {
        assert(v.deep_view() =~~= spec_chat_support_signatures());
    }
    v
}


/// Spec-level content of the video players signatures.
pub open spec fn spec_video_players_signatures() -> Seq<TechnologyView> {
    seq![
        TechnologyView {
            name: "YouTube"@,
            category: "Video Player"@,
            website: Some("https://www.youtube.com"@),
            html: Some(seq![
                PatternView { pattern: r#"youtube\.com/embed"#@, version: None },
                PatternView { pattern: r#"youtube-nocookie\.com"#@, version: None },
            ]),
            scripts: Some(seq![
                PatternView { pattern: r#"youtube\.com"#@, version: None },
            ]),
            headers: None,
            meta: None,
            cookies: None,
        },
        TechnologyView {
            name: "Vimeo"@,
            category: "Video Player"@,
            website: Some("https://vimeo.com"@),
            html: Some(seq![
                PatternView { pattern: r#"player\.vimeo\.com"#@, version: None },
            ]),
            scripts: Some(seq![
                PatternView { pattern: r#"player\.vimeo\.com"#@, version: None },
            ]),
            headers: None,
            meta: None,
            cookies: None,
        },
        TechnologyView {
            name: "Video.js"@,
            category: "Video Player"@,
            website: Some("https://videojs.com"@),
            html: Some(seq![
                PatternView { pattern: r#"video-js"#@, version: None },
            ]),
            scripts: Some(seq![
                PatternView { pattern: r#"video\.js"#@, version: None },
            ]),
            headers: None,
            meta: None,
            cookies: None,
        },
    ]
}

/// The video players signatures.
fn video_players_signatures() -> (r: Vec<Technology>)
    ensures
        r.deep_view() == spec_video_players_signatures(),
{
    let mut v: Vec<Technology> = Vec::new();

    // YouTube
    v.push(Technology {
        name: "YouTube".to_owned(),
        category: "Video Player".to_owned(),
        website: Some("https://www.youtube.com".to_owned()),
        html: Some(vec![
            Pattern::new(r#"youtube\.com/embed"#),
            Pattern::new(r#"youtube-nocookie\.com"#),
        ]),
        scripts: Some(vec![Pattern::new(r#"youtube\.com"#)]),
        headers: None,
        meta: None,
        cookies: None,
    });

    // Vimeo
    v.push(Technology {
        name: "Vimeo".to_owned(),
        category: "Video Player".to_owned(),
        website: Some("https://vimeo.com".to_owned()),
        html: Some(vec![Pattern::new(r#"player\.vimeo\.com"#)]),
        scripts: Some(vec![Pattern::new(r#"player\.vimeo\.com"#)]),
        headers: None,
        meta: None,
        cookies: None,
    });

    // Video.js
    v.push(Technology {
        name: "Video.js".to_owned(),
        category: "Video Player".to_owned(),
        website: Some("https://videojs.com".to_owned()),
        html: Some(vec![Pattern::new(r#"video-js"#)]),
        scripts: Some(vec![Pattern::new(r#"video\.js"#)]),
        headers: None,
        meta: None,
        cookies: None,
    });

    proof {
        assert(v.deep_view() =~~= spec_video_players_signatures());
    }
    v
}


/// Spec-level content of the fonts signatures.
pub open spec fn spec_fonts_signatures() -> Seq<TechnologyView> {
    seq![
        TechnologyView {
            name: "Google Fonts"@,
            category: "Font"@,
            website: Some("https://fonts.google.com"@),
            html: Some(seq![
                PatternView { pattern: r#"fonts\.googleapis\.com"#@, version: None },
            ]),
            scripts: None,
            headers: None,
            meta: None,
            cookies: None,
        },
        TechnologyView {
            name: "Font Awesome"@,
            category: "Font"@,
            website: Some("https://fontawesome.com"@),
            html: Some(seq![
                PatternView { pattern: r#"font-awesome"#@, version: None },
                PatternView { pattern: r#"fa-"#@, version: None },
            ]),
            scripts: Some(seq![
                PatternView { pattern: r#"fontawesome"#@, version: None },
            ]),
            headers: None,
            meta: None,
            cookies: None,
        },
        TechnologyView {
            name: "Adobe Fonts"@,
            category: "Font"@,
            website: Some("https://fonts.adobe.com"@),
            html: Some(seq![
                PatternView { pattern: r#"use\.typekit\.net"#@, version: None },
            ]),
            scripts: Some(seq![
                PatternView { pattern: r#"typekit\.net"#@, version: None },
            ]),
            headers: None,
            meta: None,
            cookies: None,
        },
    ]
}

/// The fonts signatures.
fn fonts_signatures() -> (r: Vec<Technology>)
    ensures
        r.deep_view() == spec_fonts_signatures(),
{
    let mut v: Vec<Technology> = Vec::new();

    // Google Fonts
    v.push(Technology {
        name: "Google Fonts".to_owned(),
        category: "Font".to_owned(),
        website: Some("https://fonts.google.com".to_owned()),
        html: Some(vec![Pattern::new(r#"fonts\.googleapis\.com"#)]),
        scripts: None,
        headers: None,
        meta: None,
        cookies: None,
    });

    // Font Awesome
    v.push(Technology {
        name: "Font Awesome".to_owned(),
        category: "Font".to_owned(),
        website: Some("https://fontawesome.com".to_owned()),
        html: Some(vec![
            Pattern::new(r#"font-awesome"#),
            Pattern::new(r#"fa-"#),
        ]),
        scripts: Some(vec![Pattern::new(r#"fontawesome"#)]),
        headers: None,
        meta: None,
        cookies: None,
    });

    // Adobe Fonts
    v.push(Technology {
        name: "Adobe Fonts".to_owned(),
        category: "Font".to_owned(),
        website: Some("https://fonts.adobe.com".to_owned()),
        html: Some(vec![Pattern::new(r#"use\.typekit\.net"#)]),
        scripts: Some(vec![Pattern::new(r#"typekit\.net"#)]),
        headers: None,
        meta: None,
        cookies: None,
    });

    proof {
        assert(v.deep_view() =~~= spec_fonts_signatures());
    }
    v
}


/// Spec-level content of the security signatures.
pub open spec fn spec_security_signatures() -> Seq<TechnologyView> {
    seq![
        TechnologyView {
            name: "reCAPTCHA"@,
            category: "Security"@,
            website: Some("https://www.google.com/recaptcha"@),
            html: Some(seq![
                PatternView { pattern: r#"g-recaptcha"#@, version: None },
                PatternView { pattern: r#"grecaptcha"#@, version: None },
            ]),
            scripts: Some(seq![
                PatternView { pattern: r#"google\.com/recaptcha"#@, version: None },
            ]),
            headers: None,
            meta: None,
            cookies: None,
        },
        TechnologyView {
            name: "hCaptcha"@,
            category: "Security"@,
            website: Some("https://www.hcaptcha.com"@),
            html: Some(seq![
                PatternView { pattern: r#"h-captcha"#@, version: None },
            ]),
            scripts: Some(seq![
                PatternView { pattern: r#"hcaptcha\.com"#@, version: None },
            ]),
            headers: None,
            meta: None,
            cookies: None,
        },
    ]
}

/// The security signatures.
fn security_signatures() -> (r: Vec<Technology>)
    ensures
        r.deep_view() == spec_security_signatures(),
{
    let mut v: Vec<Technology> = Vec::new();

    // reCAPTCHA
    v.push(Technology {
        name: "reCAPTCHA".to_owned(),
        category: "Security".to_owned(),
        website: Some("https://www.google.com/recaptcha".to_owned()),
        html: Some(vec![
            Pattern::new(r#"g-recaptcha"#),
            Pattern::new(r#"grecaptcha"#),
        ]),
        scripts: Some(vec![Pattern::new(r#"google\.com/recaptcha"#)]),
        headers: None,
        meta: None,
        cookies: None,
    });

    // hCaptcha
    v.push(Technology {
        name: "hCaptcha".to_owned(),
        category: "Security".to_owned(),
        website: Some("https://www.hcaptcha.com".to_owned()),
        html: Some(vec![Pattern::new(r#"h-captcha"#)]),
        scripts: Some(vec![Pattern::new(r#"hcaptcha\.com"#)]),
        headers: None,
        meta: None,
        cookies: None,
    });

    proof {
        assert(v.deep_view() =~~= spec_security_signatures());
    }
    v
}


/// Spec-level content of the marketing automation signatures.
pub open spec fn spec_marketing_automation_signatures() -> Seq<TechnologyView> {
    seq![
        TechnologyView {
            name: "HubSpot"@,
            category: "Marketing Automation"@,
            website: Some("https://www.hubspot.com"@),
            html: Some(seq![
                PatternView { pattern: r#"hubspot"#@, version: None },
            ]),
            scripts: Some(seq![
                PatternView { pattern: r#"js\.hs-scripts\.com"#@, version: None },
            ]),
            headers: None,
            meta: None,
            cookies: Some(seq![
                ("hubspotutk"@, PatternView { pattern: r"."@, version: None }),
            ]),
        },
        TechnologyView {
            name: "Mailchimp"@,
            category: "Email Marketing"@,
            website: Some("https://mailchimp.com"@),
            html: Some(seq![
                PatternView { pattern: r#"mailchimp"#@, version: None },
            ]),
            scripts: Some(seq![
                PatternView { pattern: r#"chimpstatic\.com"#@, version: None },
            ]),
            headers: None,
            meta: None,
            cookies: None,
        },
    ]
}

/// The marketing automation signatures.
fn marketing_automation_signatures() -> (r: Vec<Technology>)
    ensures
        r.deep_view() == spec_marketing_automation_signatures(),
{
    let mut v: Vec<Technology> = Vec::new();

    // HubSpot
    v.push(Technology {
        name: "HubSpot".to_owned(),
        category: "Marketing Automation".to_owned(),
        website: Some("https://www.hubspot.com".to_owned()),
        html: Some(vec![Pattern::new(r#"hubspot"#)]),
        scripts: Some(vec![Pattern::new(r#"js\.hs-scripts\.com"#)]),
        headers: None,
        meta: None,
        cookies: Some(vec![(
            "hubspotutk".to_owned(),
            Pattern::new(r"."),
        )]),
    });

    // Mailchimp
    v.push(Technology {
        name: "Mailchimp".to_owned(),
        category: "Email Marketing".to_owned(),
        website: Some("https://mailchimp.com".to_owned()),
        html: Some(vec![Pattern::new(r#"mailchimp"#)]),
        scripts: Some(vec![Pattern::new(r#"chimpstatic\.com"#)]),
        headers: None,
        meta: None,
        cookies: None,
    });

    proof {
        assert(v.deep_view() =~~= spec_marketing_automation_signatures());
    }
    v
}


/// Spec-level content of the hosting/platforms signatures.
pub open spec fn spec_hosting_platforms_signatures() -> Seq<TechnologyView> {
    seq![
        TechnologyView {
            name: "Vercel"@,
            category: "Hosting"@,
            website: Some("https://vercel.com"@),
            html: None,
            scripts: None,
            headers: Some(seq![
                ("x-vercel-id"@, PatternView { pattern: r"."@, version: None }),
                ("server"@, PatternView { pattern: r"Vercel"@, version: None }),
            ]),
            meta: None,
            cookies: None,
        },
        TechnologyView {
            name: "Netlify"@,
            category: "Hosting"@,
            website: Some("https://www.netlify.com"@),
            html: None,
            scripts: None,
            headers: Some(seq![
                ("x-nf-request-id"@, PatternView { pattern: r"."@, version: None }),
                ("server"@, PatternView { pattern: r"Netlify"@, version: None }),
            ]),
            meta: None,
            cookies: None,
        },
        TechnologyView {
            name: "GitHub Pages"@,
            category: "Hosting"@,
            website: Some("https://pages.github.com"@),
            html: None,
            scripts: None,
            headers: Some(seq![
                ("server"@, PatternView { pattern: r"GitHub\.com"@, version: None }),
            ]),
            meta: None,
            cookies: None,
        },
    ]
}

/// The hosting/platforms signatures.
fn hosting_platforms_signatures() -> (r: Vec<Technology>)
    ensures
        r.deep_view() == spec_hosting_platforms_signatures(),
{
    let mut v: Vec<Technology> = Vec::new();

    // Vercel
    v.push(Technology {
        name: "Vercel".to_owned(),
        category: "Hosting".to_owned(),
        website: Some("https://vercel.com".to_owned()),
        html: None,
        scripts: None,
        headers: Some(vec![
            ("x-vercel-id".to_owned(), Pattern::new(r".")),
            ("server".to_owned(), Pattern::new(r"Vercel")),
        ]),
        meta: None,
        cookies: None,
    });

    // Netlify
    v.push(Technology {
        name: "Netlify".to_owned(),
        category: "Hosting".to_owned(),
        website: Some("https://www.netlify.com".to_owned()),
        html: None,
        scripts: None,
        headers: Some(vec![
            ("x-nf-request-id".to_owned(), Pattern::new(r".")),
            ("server".to_owned(), Pattern::new(r"Netlify")),
        ]),
        meta: None,
        cookies: None,
    });

    // GitHub Pages
    v.push(Technology {
        name: "GitHub Pages".to_owned(),
        category: "Hosting".to_owned(),
        website: Some("https://pages.github.com".to_owned()),
        html: None,
        scripts: None,
        headers: Some(vec![(
            "server".to_owned(),
            Pattern::new(r"GitHub\.com"),
        )]),
        meta: None,
        cookies: None,
    });

    proof {
        assert(v.deep_view() =~~= spec_hosting_platforms_signatures());
    }
    v
}


/// Spec-level content of the social signatures.
pub open spec fn spec_social_signatures() -> Seq<TechnologyView> {
    seq![
        TechnologyView {
            name: "Facebook SDK"@,
            category: "Social"@,
            website: Some("https://developers.facebook.com"@),
            html: Some(seq![
                PatternView { pattern: r#"fb-"#@, version: None },
                PatternView { pattern: r#"facebook\.net"#@, version: None },
            ]),
            scripts: Some(seq![
                PatternView { pattern: r#"connect\.facebook\.net"#@, version: None },
            ]),
            headers: None,
            meta: None,
            cookies: None,
        },
        TechnologyView {
            name: "Twitter Widgets"@,
            category: "Social"@,
            website: Some("https://developer.twitter.com"@),
            html: Some(seq![
                PatternView { pattern: r#"twitter-timeline"#@, version: None },
            ]),
            scripts: Some(seq![
                PatternView { pattern: r#"platform\.twitter\.com"#@, version: None },
            ]),
            headers: None,
            meta: None,
            cookies: None,
        },
        TechnologyView {
            name: "AddThis"@,
            category: "Social Sharing"@,
            website: Some("https://www.addthis.com"@),
            html: Some(seq![
                PatternView { pattern: r#"addthis"#@, version: None },
            ]),
            scripts: Some(seq![
                PatternView { pattern: r#"addthis\.com"#@, version: None },
            ]),
            headers: None,
            meta: None,
            cookies: None,
        },
        TechnologyView {
            name: "ShareThis"@,
            category: "Social Sharing"@,
            website: Some("https://sharethis.com"@),
            html: Some(seq![
                PatternView { pattern: r#"sharethis"#@, version: None },
            ]),
            scripts: Some(seq![
                PatternView { pattern: r#"sharethis\.com"#@, version: None },
            ]),
            headers: None,
            meta: None,
            cookies: None,
        },
    ]
}

/// The social signatures.
fn social_signatures() -> (r: Vec<Technology>)
    ensures
        r.deep_view() == spec_social_signatures(),
{
    let mut v: Vec<Technology> = Vec::new();

    // Facebook SDK
    v.push(Technology {
        name: "Facebook SDK".to_owned(),
        category: "Social".to_owned(),
        website: Some("https://developers.facebook.com".to_owned()),
        html: Some(vec![
            Pattern::new(r#"fb-"#),
            Pattern::new(r#"facebook\.net"#),
        ]),
        scripts: Some(vec![Pattern::new(r#"connect\.facebook\.net"#)]),
        headers: None,
        meta: None,
        cookies: None,
    });

    // Twitter Widgets
    v.push(Technology {
        name: "Twitter Widgets".to_owned(),
        category: "Social".to_owned(),
        website: Some("https://developer.twitter.com".to_owned()),
        html: Some(vec![Pattern::new(r#"twitter-timeline"#)]),
        scripts: Some(vec![Pattern::new(r#"platform\.twitter\.com"#)]),
        headers: None,
        meta: None,
        cookies: None,
    });

    // AddThis
    v.push(Technology {
        name: "AddThis".to_owned(),
        category: "Social Sharing".to_owned(),
        website: Some("https://www.addthis.com".to_owned()),
        html: Some(vec![Pattern::new(r#"addthis"#)]),
        scripts: Some(vec![Pattern::new(r#"addthis\.com"#)]),
        headers: None,
        meta: None,
        cookies: None,
    });

    // ShareThis
    v.push(Technology {
        name: "ShareThis".to_owned(),
        category: "Social Sharing".to_owned(),
        website: Some("https://sharethis.com".to_owned()),
        html: Some(vec![Pattern::new(r#"sharethis"#)]),
        scripts: Some(vec![Pattern::new(r#"sharethis\.com"#)]),
        headers: None,
        meta: None,
        cookies: None,
    });

    proof {
        assert(v.deep_view() =~~= spec_social_signatures());
    }
    v
}

/// Spec-level value of the whole built-in catalog: the one fixed sequence
/// of signatures that `load_technologies` returns on every call.
pub open spec fn spec_catalog() -> Seq<TechnologyView> {
    spec_cms_signatures()
        + spec_ecommerce_signatures()
        + spec_javascript_frameworks_signatures()
        + spec_css_frameworks_signatures()
        + spec_analytics_signatures()
        + spec_advertising_signatures()
        + spec_cdn_signatures()
        + spec_web_servers_signatures()
        + spec_programming_languages_signatures()
        + spec_payment_processors_signatures()
        + spec_chat_support_signatures()
        + spec_video_players_signatures()
        + spec_fonts_signatures()
        + spec_security_signatures()
        + spec_marketing_automation_signatures()
        + spec_hosting_platforms_signatures()
        + spec_social_signatures()
}

/// The built-in signature catalog: a read-only list of technologies,
/// populated once and never mutated during analysis.
pub fn load_technologies() -> (r: Vec<Technology>)
    ensures
        r.deep_view() == spec_catalog(),
        r@.len() == CATALOG_COUNT,
{
    let mut v = cms_signatures();
    let ghost mut acc: Seq<TechnologyView> = spec_cms_signatures();
    let mut ecommerce: Vec<Technology> = ecommerce_signatures();
    v.append(&mut ecommerce);
    proof {
        assert(v.deep_view() =~= acc + spec_ecommerce_signatures());
        acc = acc + spec_ecommerce_signatures();
    }
    let mut javascript_frameworks: Vec<Technology> = javascript_frameworks_signatures();
    v.append(&mut javascript_frameworks);
    proof {
        assert(v.deep_view() =~= acc + spec_javascript_frameworks_signatures());
        acc = acc + spec_javascript_frameworks_signatures();
    }
    let mut css_frameworks: Vec<Technology> = css_frameworks_signatures();
    v.append(&mut css_frameworks);
    proof {
        assert(v.deep_view() =~= acc + spec_css_frameworks_signatures());
        acc = acc + spec_css_frameworks_signatures();
    }
    let mut analytics: Vec<Technology> = analytics_signatures();
    v.append(&mut analytics);
    proof {
        assert(v.deep_view() =~= acc + spec_analytics_signatures());
        acc = acc + spec_analytics_signatures();
    }
    let mut advertising: Vec<Technology> = advertising_signatures();
    v.append(&mut advertising);
    proof {
        assert(v.deep_view() =~= acc + spec_advertising_signatures());
        acc = acc + spec_advertising_signatures();
    }
    let mut cdn: Vec<Technology> = cdn_signatures();
    v.append(&mut cdn);
    proof {
        assert(v.deep_view() =~= acc + spec_cdn_signatures());
        acc = acc + spec_cdn_signatures();
    }
    let mut web_servers: Vec<Technology> = web_servers_signatures();
    v.append(&mut web_servers);
    proof {
        assert(v.deep_view() =~= acc + spec_web_servers_signatures());
        acc = acc + spec_web_servers_signatures();
    }
    let mut programming_languages: Vec<Technology> = programming_languages_signatures();
    v.append(&mut programming_languages);
    proof {
        assert(v.deep_view() =~= acc + spec_programming_languages_signatures());
        acc = acc + spec_programming_languages_signatures();
    }
    let mut payment_processors: Vec<Technology> = payment_processors_signatures();
    v.append(&mut payment_processors);
    proof {
        assert(v.deep_view() =~= acc + spec_payment_processors_signatures());
        acc = acc + spec_payment_processors_signatures();
    }
    let mut chat_support: Vec<Technology> = chat_support_signatures();
    v.append(&mut chat_support);
    proof {
        assert(v.deep_view() =~= acc + spec_chat_support_signatures());
        acc = acc + spec_chat_support_signatures();
    }
    let mut video_players: Vec<Technology> = video_players_signatures();
    v.append(&mut video_players);
    proof {
        assert(v.deep_view() =~= acc + spec_video_players_signatures());
        acc = acc + spec_video_players_signatures();
    }
    let mut fonts: Vec<Technology> = fonts_signatures();
    v.append(&mut fonts);
    proof {
        assert(v.deep_view() =~= acc + spec_fonts_signatures());
        acc = acc + spec_fonts_signatures();
    }
    let mut security: Vec<Technology> = security_signatures();
    v.append(&mut security);
    proof {
        assert(v.deep_view() =~= acc + spec_security_signatures());
        acc = acc + spec_security_signatures();
    }
    let mut marketing_automation: Vec<Technology> = marketing_automation_signatures();
    v.append(&mut marketing_automation);
    proof {
        assert(v.deep_view() =~= acc + spec_marketing_automation_signatures());
        acc = acc + spec_marketing_automation_signatures();
    }
    let mut hosting_platforms: Vec<Technology> = hosting_platforms_signatures();
    v.append(&mut hosting_platforms);
    proof {
        assert(v.deep_view() =~= acc + spec_hosting_platforms_signatures());
        acc = acc + spec_hosting_platforms_signatures();
    }
    let mut social: Vec<Technology> = social_signatures();
    v.append(&mut social);
    proof {
        assert(v.deep_view() =~= acc + spec_social_signatures());
        acc = acc + spec_social_signatures();
    }
    v
}



/// Law: the catalog holds the scenario-bearing signatures with their rules:
/// WordPress's `/wp-content/` html rule and versioned `generator` meta rule,
/// Nginx's versioned `server` header rule, and Google Analytics' `_ga`,
/// `_gid` and `_gat` cookie rules.
pub proof fn lemma_catalog_scenario_signatures()
    ensures
        spec_catalog()[0].name == "WordPress"@,
        spec_catalog()[0].html matches Some(h) && h[0].pattern == r#"/wp-content/"#@,
        spec_catalog()[0].meta matches Some(m) && m[0] == ("generator"@, (PatternView {
            pattern: r#"WordPress ([0-9.]+)"#@,
            version: Some(r"$1"@),
        })),
        spec_catalog()[38].name == "Nginx"@,
        spec_catalog()[38].headers matches Some(hd) && hd[0] == ("server"@, (PatternView {
            pattern: r#"nginx/([0-9.]+)"#@,
            version: Some(r"$1"@),
        })),
        spec_catalog()[26].name == "Google Analytics"@,
        spec_catalog()[26].cookies matches Some(c) && c.len() == 3 && c[0].0 == "_ga"@ && c[1].0
            == "_gid"@ && c[2].0 == "_gat"@,
{
    assert(spec_catalog()[0] == spec_cms_signatures()[0]);
    assert(spec_catalog()[26] == spec_analytics_signatures()[0]);
    assert(spec_catalog()[38] == spec_web_servers_signatures()[0]);
}

} // verus!
