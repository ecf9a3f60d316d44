use vstd::prelude::*;

verus! {

/// A response of the site: the value of its `Content-Type` header and its
/// body.
#[derive(Debug)]
pub struct Response<T> {
    pub content_type: &'static str,
    pub body: T,
}

/// A CSS response.
///
/// Will automatically get `Content-Type: text/css`.
#[derive(Clone, Copy, Debug)]
pub struct Css<T>(pub T);

/// A JavaScript response.
///
/// Will automatically get `Content-Type: application/javascript`.
#[derive(Clone, Copy, Debug)]
pub struct JavaScript<T>(pub T);

/// A PNG response.
///
/// Will automatically get `Content-Type: image/png`.
#[derive(Clone, Copy, Debug)]
pub struct Png<T>(pub T);

/// An icon response.
///
/// Will automatically get `Content-Type: image/x-icon`.
#[derive(Clone, Copy, Debug)]
pub struct Ico<T>(pub T);

impl<T> Css<T> {
    /// The response: the body, typed as CSS.
    pub fn into_response(self) -> (r: Response<T>)
        ensures
            r.content_type@ == "text/css"@,
            r.body == self.0,
    {
        Response { content_type: "text/css", body: self.0 }
    }
}

impl<T> JavaScript<T> {
    /// The response: the body, typed as JavaScript.
    pub fn into_response(self) -> (r: Response<T>)
        ensures
            r.content_type@ == "application/javascript"@,
            r.body == self.0,
    {
        Response { content_type: "application/javascript", body: self.0 }
    }
}

impl<T> Png<T> {
    /// The response: the body, typed as a PNG image.
    pub fn into_response(self) -> (r: Response<T>)
        ensures
            r.content_type@ == "image/png"@,
            r.body == self.0,
    {
        Response { content_type: "image/png", body: self.0 }
    }
}

impl<T> Ico<T> {
    /// The response: the body, typed as an icon.
    pub fn into_response(self) -> (r: Response<T>)
        ensures
            r.content_type@ == "image/x-icon"@,
            r.body == self.0,
    {
        Response { content_type: "image/x-icon", body: self.0 }
    }
}

impl<T> From<T> for Css<T> {
    fn from(inner: T) -> (r: Self) {
        Css(inner)
    }
}

impl<T> vstd::std_specs::convert::FromSpecImpl<T> for Css<T> {
    open spec fn obeys_from_spec() -> bool {
        true
    }

    open spec fn from_spec(inner: T) -> Self {
        Css(inner)
    }
}

impl<T> From<T> for JavaScript<T> {
    fn from(inner: T) -> (r: Self) {
        JavaScript(inner)
    }
}

impl<T> vstd::std_specs::convert::FromSpecImpl<T> for JavaScript<T> {
    open spec fn obeys_from_spec() -> bool {
        true
    }

    open spec fn from_spec(inner: T) -> Self {
        JavaScript(inner)
    }
}

impl<T> From<T> for Png<T> {
    fn from(inner: T) -> (r: Self) {
        Png(inner)
    }
}

impl<T> vstd::std_specs::convert::FromSpecImpl<T> for Png<T> {
    open spec fn obeys_from_spec() -> bool {
        true
    }

    open spec fn from_spec(inner: T) -> Self {
        Png(inner)
    }
}

impl<T> From<T> for Ico<T> {
    fn from(inner: T) -> (r: Self) {
        Ico(inner)
    }
}

impl<T> vstd::std_specs::convert::FromSpecImpl<T> for Ico<T> {
    open spec fn obeys_from_spec() -> bool {
        true
    }

    open spec fn from_spec(inner: T) -> Self {
        Ico(inner)
    }
}

/// How a route of the site is answered.
#[derive(Clone, Copy, Debug, PartialEq, Eq, Structural)]
pub enum Serve {
    /// The file, as an HTML page.
    Html,
    /// The file, as CSS.
    Css,
    /// The file, as JavaScript.
    JavaScript,
    /// The file, as a PNG image.
    Png,
    /// The file, as an icon.
    Ico,
    /// A permanent redirect to the source address.
    PermanentRedirect,
}

/// A route of the site: the path pattern it answers, the file it serves (or
/// the address it redirects to), and how.
#[derive(Debug)]
pub struct Route {
    pub path: &'static str,
    pub source: &'static str,
    pub serve: Serve,
}

impl View for Route {
    type V = (Seq<char>, Seq<char>, Serve);

    open spec fn view(&self) -> (Seq<char>, Seq<char>, Serve) {
        (self.path@, self.source@, self.serve)
    }
}

/// Where the site's invite link leads: the bot's OAuth2 authorization page.
pub const BOT_INVITE: &'static str = "https://discord.com/api/oauth2/authorize?client_id=975460814007963738&permissions=0&scope=applications.commands%20bot";

/// The site's routes, in the order they are registered.
pub open spec fn site_routes() -> Seq<(Seq<char>, Seq<char>, Serve)> {
    seq![
        ("/"@, "resources/html/index.html"@, Serve::Html),
        ("/invite"@, BOT_INVITE@, Serve::PermanentRedirect),
        ("/about"@, "resources/html/about.html"@, Serve::Html),
        ("/terms"@, "resources/html/terms.html"@, Serve::Html),
        ("/privacy"@, "resources/html/privacy.html"@, Serve::Html),
        ("/css/main.css"@, "resources/css/main.css"@, Serve::Css),
        ("/css/paste.css"@, "resources/css/paste.css"@, Serve::Css),
        ("/js/color.js"@, "resources/js/color.js"@, Serve::JavaScript),
        ("/img/logo.png"@, "resources/img/logo.png"@, Serve::Png),
        ("/favicon.ico"@, "resources/img/favicon.ico"@, Serve::Ico),
        ("/:channelid/:messageid/:filename"@, "resources/html/paste.html"@, Serve::Html),
        ("/js/highlight.js"@, "resources/js/highlight.js"@, Serve::JavaScript),
        ("/css/highlight.css"@, "resources/css/highlight.css"@, Serve::Css),
    ]
}

/// The site's routes: each page, stylesheet, script and image with the file
/// it is read from, the invite redirect, and the paste viewer page that
/// answers every `/{channel}/{message}/{file}` path.
pub fn routes() -> (r: Vec<Route>)
    ensures
        r@.map_values(|x: Route| x@) == site_routes(),
{
    let mut r: Vec<Route> = Vec::new();
    r.push(Route { path: "/", source: "resources/html/index.html", serve: Serve::Html });
    r.push(Route { path: "/invite", source: BOT_INVITE, serve: Serve::PermanentRedirect });
    r.push(Route { path: "/about", source: "resources/html/about.html", serve: Serve::Html });
    r.push(Route { path: "/terms", source: "resources/html/terms.html", serve: Serve::Html });
    r.push(Route { path: "/privacy", source: "resources/html/privacy.html", serve: Serve::Html });
    r.push(Route { path: "/css/main.css", source: "resources/css/main.css", serve: Serve::Css });
    r.push(Route { path: "/css/paste.css", source: "resources/css/paste.css", serve: Serve::Css });
    r.push(
        Route { path: "/js/color.js", source: "resources/js/color.js", serve: Serve::JavaScript },
    );
    r.push(Route { path: "/img/logo.png", source: "resources/img/logo.png", serve: Serve::Png });
    r.push(Route { path: "/favicon.ico", source: "resources/img/favicon.ico", serve: Serve::Ico });
    r.push(
        Route {
            path: "/:channelid/:messageid/:filename",
            source: "resources/html/paste.html",
            serve: Serve::Html,
        },
    );
    r.push(
        Route {
            path: "/js/highlight.js",
            source: "resources/js/highlight.js",
            serve: Serve::JavaScript,
        },
    );
    r.push(
        Route {
            path: "/css/highlight.css",
            source: "resources/css/highlight.css",
            serve: Serve::Css,
        },
    );
    assert(r@.map_values(|x: Route| x@) =~= site_routes());
    r
}


/// No two routes share a path, and no two routes serve the same file or
/// redirect to the same address: every page, stylesheet, script and image
/// is served from its own source.
pub proof fn lemma_routes_are_distinct()
    ensures
        forall|i: int, j: int|
            0 <= i < j < site_routes().len() ==> (#[trigger] site_routes()[i]).0 != (
            #[trigger] site_routes()[j]).0 && site_routes()[i].1 != site_routes()[j].1,
{
    reveal_strlit("/");
    reveal_strlit("resources/html/index.html");
    reveal_strlit("/invite");
    reveal_strlit("/about");
    reveal_strlit("resources/html/about.html");
    reveal_strlit("/terms");
    reveal_strlit("resources/html/terms.html");
    reveal_strlit("/privacy");
    reveal_strlit("resources/html/privacy.html");
    reveal_strlit("/css/main.css");
    reveal_strlit("resources/css/main.css");
    reveal_strlit("/css/paste.css");
    reveal_strlit("resources/css/paste.css");
    reveal_strlit("/js/color.js");
    reveal_strlit("resources/js/color.js");
    reveal_strlit("/img/logo.png");
    reveal_strlit("resources/img/logo.png");
    reveal_strlit("/favicon.ico");
    reveal_strlit("resources/img/favicon.ico");
    reveal_strlit("/:channelid/:messageid/:filename");
    reveal_strlit("resources/html/paste.html");
    reveal_strlit("/js/highlight.js");
    reveal_strlit("resources/js/highlight.js");
    reveal_strlit("/css/highlight.css");
    reveal_strlit("resources/css/highlight.css");
    reveal_strlit("https://discord.com/api/oauth2/authorize?client_id=975460814007963738&permissions=0&scope=applications.commands%20bot");
    let r = site_routes();
    assert(r[0].0.len() != r[1].0.len());
    assert(r[0].0.len() != r[2].0.len());
    assert(r[0].0.len() != r[3].0.len());
    assert(r[0].0.len() != r[4].0.len());
    assert(r[0].0.len() != r[5].0.len());
    assert(r[0].0.len() != r[6].0.len());
    assert(r[0].0.len() != r[7].0.len());
    assert(r[0].0.len() != r[8].0.len());
    assert(r[0].0.len() != r[9].0.len());
    assert(r[0].0.len() != r[10].0.len());
    assert(r[0].0.len() != r[11].0.len());
    assert(r[0].0.len() != r[12].0.len());
    assert(r[1].0.len() != r[2].0.len());
    assert(r[1].0.len() != r[3].0.len());
    assert(r[1].0.len() != r[4].0.len());
    assert(r[1].0.len() != r[5].0.len());
    assert(r[1].0.len() != r[6].0.len());
    assert(r[1].0.len() != r[7].0.len());
    assert(r[1].0.len() != r[8].0.len());
    assert(r[1].0.len() != r[9].0.len());
    assert(r[1].0.len() != r[10].0.len());
    assert(r[1].0.len() != r[11].0.len());
    assert(r[1].0.len() != r[12].0.len());
    assert(r[2].0[1] != r[3].0[1]);
    assert(r[2].0.len() != r[4].0.len());
    assert(r[2].0.len() != r[5].0.len());
    assert(r[2].0.len() != r[6].0.len());
    assert(r[2].0.len() != r[7].0.len());
    assert(r[2].0.len() != r[8].0.len());
    assert(r[2].0.len() != r[9].0.len());
    assert(r[2].0.len() != r[10].0.len());
    assert(r[2].0.len() != r[11].0.len());
    assert(r[2].0.len() != r[12].0.len());
    assert(r[3].0.len() != r[4].0.len());
    assert(r[3].0.len() != r[5].0.len());
    assert(r[3].0.len() != r[6].0.len());
    assert(r[3].0.len() != r[7].0.len());
    assert(r[3].0.len() != r[8].0.len());
    assert(r[3].0.len() != r[9].0.len());
    assert(r[3].0.len() != r[10].0.len());
    assert(r[3].0.len() != r[11].0.len());
    assert(r[3].0.len() != r[12].0.len());
    assert(r[4].0.len() != r[5].0.len());
    assert(r[4].0.len() != r[6].0.len());
    assert(r[4].0.len() != r[7].0.len());
    assert(r[4].0.len() != r[8].0.len());
    assert(r[4].0.len() != r[9].0.len());
    assert(r[4].0.len() != r[10].0.len());
    assert(r[4].0.len() != r[11].0.len());
    assert(r[4].0.len() != r[12].0.len());
    assert(r[5].0.len() != r[6].0.len());
    assert(r[5].0.len() != r[7].0.len());
    assert(r[5].0[1] != r[8].0[1]);
    assert(r[5].0.len() != r[9].0.len());
    assert(r[5].0.len() != r[10].0.len());
    assert(r[5].0.len() != r[11].0.len());
    assert(r[5].0.len() != r[12].0.len());
    assert(r[6].0.len() != r[7].0.len());
    assert(r[6].0.len() != r[8].0.len());
    assert(r[6].0.len() != r[9].0.len());
    assert(r[6].0.len() != r[10].0.len());
    assert(r[6].0.len() != r[11].0.len());
    assert(r[6].0.len() != r[12].0.len());
    assert(r[7].0.len() != r[8].0.len());
    assert(r[7].0[1] != r[9].0[1]);
    assert(r[7].0.len() != r[10].0.len());
    assert(r[7].0.len() != r[11].0.len());
    assert(r[7].0.len() != r[12].0.len());
    assert(r[8].0.len() != r[9].0.len());
    assert(r[8].0.len() != r[10].0.len());
    assert(r[8].0.len() != r[11].0.len());
    assert(r[8].0.len() != r[12].0.len());
    assert(r[9].0.len() != r[10].0.len());
    assert(r[9].0.len() != r[11].0.len());
    assert(r[9].0.len() != r[12].0.len());
    assert(r[10].0.len() != r[11].0.len());
    assert(r[10].0.len() != r[12].0.len());
    assert(r[11].0.len() != r[12].0.len());
    assert(r[0].1.len() != r[1].1.len());
    assert(r[0].1[15] != r[2].1[15]);
    assert(r[0].1[15] != r[3].1[15]);
    assert(r[0].1.len() != r[4].1.len());
    assert(r[0].1.len() != r[5].1.len());
    assert(r[0].1.len() != r[6].1.len());
    assert(r[0].1.len() != r[7].1.len());
    assert(r[0].1.len() != r[8].1.len());
    assert(r[0].1[10] != r[9].1[10]);
    assert(r[0].1[15] != r[10].1[15]);
    assert(r[0].1[10] != r[11].1[10]);
    assert(r[0].1.len() != r[12].1.len());
    assert(r[1].1.len() != r[2].1.len());
    assert(r[1].1.len() != r[3].1.len());
    assert(r[1].1.len() != r[4].1.len());
    assert(r[1].1.len() != r[5].1.len());
    assert(r[1].1.len() != r[6].1.len());
    assert(r[1].1.len() != r[7].1.len());
    assert(r[1].1.len() != r[8].1.len());
    assert(r[1].1.len() != r[9].1.len());
    assert(r[1].1.len() != r[10].1.len());
    assert(r[1].1.len() != r[11].1.len());
    assert(r[1].1.len() != r[12].1.len());
    assert(r[2].1[15] != r[3].1[15]);
    assert(r[2].1.len() != r[4].1.len());
    assert(r[2].1.len() != r[5].1.len());
    assert(r[2].1.len() != r[6].1.len());
    assert(r[2].1.len() != r[7].1.len());
    assert(r[2].1.len() != r[8].1.len());
    assert(r[2].1[10] != r[9].1[10]);
    assert(r[2].1[15] != r[10].1[15]);
    assert(r[2].1[10] != r[11].1[10]);
    assert(r[2].1.len() != r[12].1.len());
    assert(r[3].1.len() != r[4].1.len());
    assert(r[3].1.len() != r[5].1.len());
    assert(r[3].1.len() != r[6].1.len());
    assert(r[3].1.len() != r[7].1.len());
    assert(r[3].1.len() != r[8].1.len());
    assert(r[3].1[10] != r[9].1[10]);
    assert(r[3].1[15] != r[10].1[15]);
    assert(r[3].1[10] != r[11].1[10]);
    assert(r[3].1.len() != r[12].1.len());
    assert(r[4].1.len() != r[5].1.len());
    assert(r[4].1.len() != r[6].1.len());
    assert(r[4].1.len() != r[7].1.len());
    assert(r[4].1.len() != r[8].1.len());
    assert(r[4].1.len() != r[9].1.len());
    assert(r[4].1.len() != r[10].1.len());
    assert(r[4].1.len() != r[11].1.len());
    assert(r[4].1[10] != r[12].1[10]);
    assert(r[5].1.len() != r[6].1.len());
    assert(r[5].1.len() != r[7].1.len());
    assert(r[5].1[10] != r[8].1[10]);
    assert(r[5].1.len() != r[9].1.len());
    assert(r[5].1.len() != r[10].1.len());
    assert(r[5].1.len() != r[11].1.len());
    assert(r[5].1.len() != r[12].1.len());
    assert(r[6].1.len() != r[7].1.len());
    assert(r[6].1.len() != r[8].1.len());
    assert(r[6].1.len() != r[9].1.len());
    assert(r[6].1.len() != r[10].1.len());
    assert(r[6].1.len() != r[11].1.len());
    assert(r[6].1.len() != r[12].1.len());
    assert(r[7].1.len() != r[8].1.len());
    assert(r[7].1.len() != r[9].1.len());
    assert(r[7].1.len() != r[10].1.len());
    assert(r[7].1.len() != r[11].1.len());
    assert(r[7].1.len() != r[12].1.len());
    assert(r[8].1.len() != r[9].1.len());
    assert(r[8].1.len() != r[10].1.len());
    assert(r[8].1.len() != r[11].1.len());
    assert(r[8].1.len() != r[12].1.len());
    assert(r[9].1[10] != r[10].1[10]);
    assert(r[9].1[10] != r[11].1[10]);
    assert(r[9].1.len() != r[12].1.len());
    assert(r[10].1[10] != r[11].1[10]);
    assert(r[10].1.len() != r[12].1.len());
    assert(r[11].1.len() != r[12].1.len());
    assert forall|i: int, j: int| 0 <= i < j < r.len() implies (#[trigger] r[i]).0 != (
    #[trigger] r[j]).0 && r[i].1 != r[j].1 by {
    }
}

/// Each HTML page other than the home page and the paste viewer is served
/// from the file named after its path: `/x` serves `resources/html/x.html`.
pub proof fn lemma_pages_serve_their_own_file()
    ensures
        forall|i: int|
            0 <= i < site_routes().len() && (#[trigger] site_routes()[i]).2 == Serve::Html
                && site_routes()[i].0 != "/"@ && site_routes()[i].0
                != "/:channelid/:messageid/:filename"@ ==> site_routes()[i].1 == "resources/html"@
                + site_routes()[i].0 + ".html"@,
{
    reveal_strlit("/");
    reveal_strlit("resources/html/index.html");
    reveal_strlit("/invite");
    reveal_strlit("/about");
    reveal_strlit("resources/html/about.html");
    reveal_strlit("/terms");
    reveal_strlit("resources/html/terms.html");
    reveal_strlit("/privacy");
    reveal_strlit("resources/html/privacy.html");
    reveal_strlit("/css/main.css");
    reveal_strlit("resources/css/main.css");
    reveal_strlit("/css/paste.css");
    reveal_strlit("resources/css/paste.css");
    reveal_strlit("/js/color.js");
    reveal_strlit("resources/js/color.js");
    reveal_strlit("/img/logo.png");
    reveal_strlit("resources/img/logo.png");
    reveal_strlit("/favicon.ico");
    reveal_strlit("resources/img/favicon.ico");
    reveal_strlit("/:channelid/:messageid/:filename");
    reveal_strlit("resources/html/paste.html");
    reveal_strlit("/js/highlight.js");
    reveal_strlit("resources/js/highlight.js");
    reveal_strlit("/css/highlight.css");
    reveal_strlit("resources/css/highlight.css");
    reveal_strlit("resources/html");
    reveal_strlit(".html");
    let r = site_routes();
    assert(r[2].1 =~= "resources/html"@ + r[2].0 + ".html"@);
    assert(r[3].1 =~= "resources/html"@ + r[3].0 + ".html"@);
    assert(r[4].1 =~= "resources/html"@ + r[4].0 + ".html"@);
}


/// Each route answers with the kind its source calls for: files ending in
/// `.html`, `.css`, `.js`, `.png` and `.ico` as a page, a stylesheet, a
/// script, a PNG image and an icon, and an `https://` address by a
/// redirect.
pub proof fn lemma_routes_serve_by_extension()
    ensures
        forall|i: int|
            0 <= i < site_routes().len() ==> {
                let src = (#[trigger] site_routes()[i]).1;
                let kind = site_routes()[i].2;
                &&& src.len() > 8
                &&& src.subrange(src.len() - 5, src.len() as int) == seq!['.', 'h', 't', 'm', 'l']
                    ==> kind == Serve::Html
                &&& src.subrange(src.len() - 4, src.len() as int) == seq!['.', 'c', 's', 's']
                    ==> kind == Serve::Css
                &&& src.subrange(src.len() - 3, src.len() as int) == seq!['.', 'j', 's']
                    ==> kind == Serve::JavaScript
                &&& src.subrange(src.len() - 4, src.len() as int) == seq!['.', 'p', 'n', 'g']
                    ==> kind == Serve::Png
                &&& src.subrange(src.len() - 4, src.len() as int) == seq!['.', 'i', 'c', 'o']
                    ==> kind == Serve::Ico
                &&& src.subrange(0, 8) == seq!['h', 't', 't', 'p', 's', ':', '/', '/']
                    <==> kind == Serve::PermanentRedirect
            },
{
    reveal_strlit("https://discord.com/api/oauth2/authorize?client_id=975460814007963738&permissions=0&scope=applications.commands%20bot");
    reveal_strlit("resources/css/highlight.css");
    reveal_strlit("resources/css/main.css");
    reveal_strlit("resources/css/paste.css");
    reveal_strlit("resources/html/about.html");
    reveal_strlit("resources/html/index.html");
    reveal_strlit("resources/html/paste.html");
    reveal_strlit("resources/html/privacy.html");
    reveal_strlit("resources/html/terms.html");
    reveal_strlit("resources/img/favicon.ico");
    reveal_strlit("resources/img/logo.png");
    reveal_strlit("resources/js/color.js");
    reveal_strlit("resources/js/highlight.js");
    let r = site_routes();
    assert(r[0].1.len() == 25);
    {
        assert(r[0].1.subrange(20, 25) =~= seq!['.', 'h', 't', 'm', 'l']);
        assert(r[0].1.subrange(21, 25)[0] != '.');
        assert(r[0].1.subrange(22, 25)[0] != '.');
        assert(r[0].1.subrange(21, 25)[0] != '.');
        assert(r[0].1.subrange(21, 25)[0] != '.');
        assert(r[0].1.subrange(0, 8)[0] != 'h');
    }
    assert(r[1].1.len() == 117);
    {
        assert(r[1].1.subrange(112, 117)[0] != '.');
        assert(r[1].1.subrange(113, 117)[0] != '.');
        assert(r[1].1.subrange(114, 117)[0] != '.');
        assert(r[1].1.subrange(113, 117)[0] != '.');
        assert(r[1].1.subrange(113, 117)[0] != '.');
        assert(r[1].1.subrange(0, 8) =~= seq!['h', 't', 't', 'p', 's', ':', '/', '/']);
    }
    assert(r[2].1.len() == 25);
    {
        assert(r[2].1.subrange(20, 25) =~= seq!['.', 'h', 't', 'm', 'l']);
        assert(r[2].1.subrange(21, 25)[0] != '.');
        assert(r[2].1.subrange(22, 25)[0] != '.');
        assert(r[2].1.subrange(21, 25)[0] != '.');
        assert(r[2].1.subrange(21, 25)[0] != '.');
        assert(r[2].1.subrange(0, 8)[0] != 'h');
    }
    assert(r[3].1.len() == 25);
    {
        assert(r[3].1.subrange(20, 25) =~= seq!['.', 'h', 't', 'm', 'l']);
        assert(r[3].1.subrange(21, 25)[0] != '.');
        assert(r[3].1.subrange(22, 25)[0] != '.');
        assert(r[3].1.subrange(21, 25)[0] != '.');
        assert(r[3].1.subrange(21, 25)[0] != '.');
        assert(r[3].1.subrange(0, 8)[0] != 'h');
    }
    assert(r[4].1.len() == 27);
    {
        assert(r[4].1.subrange(22, 27) =~= seq!['.', 'h', 't', 'm', 'l']);
        assert(r[4].1.subrange(23, 27)[0] != '.');
        assert(r[4].1.subrange(24, 27)[0] != '.');
        assert(r[4].1.subrange(23, 27)[0] != '.');
        assert(r[4].1.subrange(23, 27)[0] != '.');
        assert(r[4].1.subrange(0, 8)[0] != 'h');
    }
    assert(r[5].1.len() == 22);
    {
        assert(r[5].1.subrange(17, 22)[0] != '.');
        assert(r[5].1.subrange(18, 22) =~= seq!['.', 'c', 's', 's']);
        assert(r[5].1.subrange(19, 22)[0] != '.');
        assert(r[5].1.subrange(18, 22)[1] != 'p');
        assert(r[5].1.subrange(18, 22)[1] != 'i');
        assert(r[5].1.subrange(0, 8)[0] != 'h');
    }
    assert(r[6].1.len() == 23);
    {
        assert(r[6].1.subrange(18, 23)[0] != '.');
        assert(r[6].1.subrange(19, 23) =~= seq!['.', 'c', 's', 's']);
        assert(r[6].1.subrange(20, 23)[0] != '.');
        assert(r[6].1.subrange(19, 23)[1] != 'p');
        assert(r[6].1.subrange(19, 23)[1] != 'i');
        assert(r[6].1.subrange(0, 8)[0] != 'h');
    }
    assert(r[7].1.len() == 21);
    {
        assert(r[7].1.subrange(16, 21)[0] != '.');
        assert(r[7].1.subrange(17, 21)[0] != '.');
        assert(r[7].1.subrange(18, 21) =~= seq!['.', 'j', 's']);
        assert(r[7].1.subrange(17, 21)[0] != '.');
        assert(r[7].1.subrange(17, 21)[0] != '.');
        assert(r[7].1.subrange(0, 8)[0] != 'h');
    }
    assert(r[8].1.len() == 22);
    {
        assert(r[8].1.subrange(17, 22)[0] != '.');
        assert(r[8].1.subrange(18, 22)[1] != 'c');
        assert(r[8].1.subrange(19, 22)[0] != '.');
        assert(r[8].1.subrange(18, 22) =~= seq!['.', 'p', 'n', 'g']);
        assert(r[8].1.subrange(18, 22)[1] != 'i');
        assert(r[8].1.subrange(0, 8)[0] != 'h');
    }
    assert(r[9].1.len() == 25);
    {
        assert(r[9].1.subrange(20, 25)[0] != '.');
        assert(r[9].1.subrange(21, 25)[1] != 'c');
        assert(r[9].1.subrange(22, 25)[0] != '.');
        assert(r[9].1.subrange(21, 25)[1] != 'p');
        assert(r[9].1.subrange(21, 25) =~= seq!['.', 'i', 'c', 'o']);
        assert(r[9].1.subrange(0, 8)[0] != 'h');
    }
    assert(r[10].1.len() == 25);
    {
        assert(r[10].1.subrange(20, 25) =~= seq!['.', 'h', 't', 'm', 'l']);
        assert(r[10].1.subrange(21, 25)[0] != '.');
        assert(r[10].1.subrange(22, 25)[0] != '.');
        assert(r[10].1.subrange(21, 25)[0] != '.');
        assert(r[10].1.subrange(21, 25)[0] != '.');
        assert(r[10].1.subrange(0, 8)[0] != 'h');
    }
    assert(r[11].1.len() == 25);
    {
        assert(r[11].1.subrange(20, 25)[0] != '.');
        assert(r[11].1.subrange(21, 25)[0] != '.');
        assert(r[11].1.subrange(22, 25) =~= seq!['.', 'j', 's']);
        assert(r[11].1.subrange(21, 25)[0] != '.');
        assert(r[11].1.subrange(21, 25)[0] != '.');
        assert(r[11].1.subrange(0, 8)[0] != 'h');
    }
    assert(r[12].1.len() == 27);
    {
        assert(r[12].1.subrange(22, 27)[0] != '.');
        assert(r[12].1.subrange(23, 27) =~= seq!['.', 'c', 's', 's']);
        assert(r[12].1.subrange(24, 27)[0] != '.');
        assert(r[12].1.subrange(23, 27)[1] != 'p');
        assert(r[12].1.subrange(23, 27)[1] != 'i');
        assert(r[12].1.subrange(0, 8)[0] != 'h');
    }
}

} // verus!
