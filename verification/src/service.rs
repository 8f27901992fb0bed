//! The service: its settings, and the answer it gives to each request.

use crate::assets::{AssetEntry, AssetModel, Assets};
use crate::etag::{entity_tag, lower_hex};
use crate::fallback_handler::{DefaultFallbackHandler, FallbackHandler};
use crate::http::{
    eq_ignore_ascii_case, get_method, header_value, if_none_match_name, Header, HeaderModel,
    Request, RequestModel, Response, ResponseModel,
};
use crate::media_type::{media_type, media_type_for};
use crate::slashes::{
    lemma_both_ends_trimmed, lemma_trailing_trimmed, no_slash_at_end, no_slash_at_start,
    strip_leading_slash, strip_trailing_slash, trim_leading_slashes, trim_trailing_slashes,
    without_leading_slash, without_leading_slashes, without_trailing_slash,
    without_trailing_slashes,
};
use std::rc::Rc;
use vstd::prelude::*;
use vstd::string::*;

verus! {

/// The path by which an asset is looked up for a request path: one leading
/// `/` is dropped; unless slashes are strict, one trailing `/` too; and for
/// what is then empty the index file stands in, if there is one.
pub open spec fn lookup_key(strict_slash: bool, index_file: Option<Seq<char>>, path: Seq<char>) -> Seq<char> {
    let relative = without_leading_slash(path);
    let trimmed = if strict_slash {
        relative
    } else {
        without_trailing_slash(relative)
    };
    if trimmed.len() == 0 && index_file.is_some() {
        index_file.unwrap()
    } else {
        trimmed
    }
}

/// The answer to a request whose method is not served: status 405, no
/// header, no body.
pub open spec fn method_not_allowed() -> ResponseModel {
    ResponseModel { status: 405, headers: Seq::empty(), body: Seq::empty() }
}

/// The answer to a request that holds the current validator: status 304, no
/// header, no body.
pub open spec fn not_modified() -> ResponseModel {
    ResponseModel { status: 304, headers: Seq::empty(), body: Seq::empty() }
}

/// The answer that carries content: status 200, the content type, the
/// validator, and the content as body.
pub open spec fn content(media_type: Seq<char>, etag: Seq<char>, bytes: Seq<u8>) -> ResponseModel {
    ResponseModel {
        status: 200,
        headers: seq![
            HeaderModel { name: "Content-Type"@, value: media_type },
            HeaderModel { name: "ETag"@, value: etag },
        ],
        body: bytes,
    }
}

/// The answer that the settings and the assets fix for a request, or `None`
/// where no asset matches and the fallback handler decides.
pub open spec fn fixed_answer(
    strict_slash: bool,
    index_file: Option<Seq<char>>,
    assets: Map<Seq<char>, AssetModel>,
    req: RequestModel,
) -> Option<ResponseModel> {
    let key = lookup_key(strict_slash, index_file, req.path);
    if !eq_ignore_ascii_case(req.method, get_method()) {
        Some(method_not_allowed())
    } else if !assets.contains_key(key) {
        None
    } else if header_value(req.headers, if_none_match_name()) == Some(lower_hex(assets[key].digest)) {
        Some(not_modified())
    } else {
        Some(content(media_type_for(key), lower_hex(assets[key].digest), assets[key].bytes))
    }
}

/// Calls `Rc::clone`, which gives another pointer to the same value.
#[verifier::external_body]
fn share<T>(value: &Rc<T>) -> (other: Rc<T>)
    ensures
        other == value,
{
    Rc::clone(value)
}

/// The answer to a request whose method is not served.
pub fn method_not_allowed_response() -> (resp: Response)
    ensures
        resp@ == method_not_allowed(),
{
    let resp = Response { status: 405, headers: Vec::new(), body: Vec::new() };
    assert(resp@.headers =~= Seq::empty());
    assert(resp@.body =~= Seq::empty());
    resp
}

/// The answer to a request that holds the current validator.
pub fn not_modified_response() -> (resp: Response)
    ensures
        resp@ == not_modified(),
{
    let resp = Response { status: 304, headers: Vec::new(), body: Vec::new() };
    assert(resp@.headers =~= Seq::empty());
    assert(resp@.body =~= Seq::empty());
    resp
}

/// The answer that carries content, with its type and its validator.
pub fn content_response(media_type: String, etag: String, bytes: Vec<u8>) -> (resp: Response)
    ensures
        resp@ == content(media_type@, etag@, bytes@),
{
    let mut headers: Vec<Header> = Vec::new();
    headers.push(Header { name: String::from_str("Content-Type"), value: media_type });
    headers.push(Header { name: String::from_str("ETag"), value: etag });
    let resp = Response { status: 200, headers, body: bytes };
    assert(resp@.headers =~= content(media_type@, etag@, bytes@).headers);
    resp
}

/// The answer to a `GET` request for an asset that was found: 304 where the
/// request holds the asset's validator in `If-None-Match`, else 200 with
/// the given content type, the validator and the content.
pub fn answer_found(req: &Request, entry: &AssetEntry, media_type: String) -> (resp: Response)
    ensures
        resp@ == if header_value(req@.headers, if_none_match_name()) == Some(
            lower_hex(entry@.digest),
        ) {
            not_modified()
        } else {
            content(media_type@, lower_hex(entry@.digest), entry@.bytes)
        },
{
    let etag = entity_tag(entry.digest.as_slice());
    let matches = match req.header("If-None-Match") {
        Some(value) => String::from_str(value) == etag,
        None => false,
    };
    if matches {
        not_modified_response()
    } else {
        content_response(media_type, etag, entry.bytes.clone())
    }
}

/// The settings of a service that serves a set of assets below a mount path.
///
/// Each setter takes the settings and gives back new ones, so that settings
/// in use never change.
pub struct Embed<F: FallbackHandler> {
    mount_path: String,
    index_file_path: Option<String>,
    strict_slash: bool,
    fallback_handler: Rc<F>,
    assets: Rc<Assets>,
}

impl Embed<DefaultFallbackHandler> {
    /// New settings for the assets `assets`, served below `mount_path`.
    ///
    /// The mount path is kept without the `/` it ends with, so that `/`
    /// alone stands for the root. A trailing `/` of a request path is
    /// not strict, there is no index file, and the fallback handler is the
    /// default one.
    pub fn new(mount_path: &str, assets: Assets) -> (embed: Self)
        ensures
            embed.mount() == without_trailing_slashes(mount_path@),
            no_slash_at_end(embed.mount()),
            !embed.is_strict(),
            embed.index().is_none(),
            embed.table() == assets@,
    {
        proof {
            lemma_trailing_trimmed(mount_path@);
        }
        Embed {
            mount_path: String::from_str(trim_trailing_slashes(mount_path)),
            index_file_path: None,
            strict_slash: false,
            fallback_handler: Rc::new(DefaultFallbackHandler),
            assets: Rc::new(assets),
        }
    }
}

impl<F: FallbackHandler> Embed<F> {
    /// The fallback handler answers every request.
    #[verifier::type_invariant]
    spec fn total(&self) -> bool {
        forall|req: Request| #[trigger] self.fallback_handler.accepts(&req)
    }

    /// The mount path.
    pub closed spec fn mount(&self) -> Seq<char> {
        self.mount_path@
    }

    /// Whether a trailing `/` of the request path is kept.
    pub closed spec fn is_strict(&self) -> bool {
        self.strict_slash
    }

    /// The path that stands in for the empty path, if there is one.
    pub closed spec fn index(&self) -> Option<Seq<char>> {
        index_model(self.index_file_path)
    }

    /// The handler that answers where no asset matches.
    pub closed spec fn handler(&self) -> F {
        *self.fallback_handler
    }

    /// The assets, by path.
    pub closed spec fn table(&self) -> Map<Seq<char>, AssetModel> {
        self.assets@
    }

    /// The path below which the assets are served.
    pub fn mount_path(&self) -> (path: &str)
        ensures
            path@ == self.mount(),
    {
        self.mount_path.as_str()
    }

    /// Sets whether the trailing slash of a request path is kept.
    ///
    /// By default it is not. If it is, the asset `dir/file` is not found
    /// by the request path `/dir/file/`.
    pub fn strict_slash(self, strict_slash: bool) -> (embed: Self)
        ensures
            embed.is_strict() == strict_slash,
            embed.mount() == self.mount(),
            embed.index() == self.index(),
            embed.handler() == self.handler(),
            embed.table() == self.table(),
    {
        proof {
            use_type_invariant(&self);
        }
        Embed {
            mount_path: self.mount_path,
            index_file_path: self.index_file_path,
            strict_slash,
            fallback_handler: self.fallback_handler,
            assets: self.assets,
        }
    }

    /// Sets the path of the index file, taken without the `/` at its ends.
    ///
    /// By default there is none. The index file is what a request for the
    /// root is answered with.
    pub fn index_file(self, path: &str) -> (embed: Self)
        ensures
            embed.index() == Some(without_leading_slashes(without_trailing_slashes(path@))),
            no_slash_at_start(embed.index().unwrap()),
            no_slash_at_end(embed.index().unwrap()),
            embed.mount() == self.mount(),
            embed.is_strict() == self.is_strict(),
            embed.handler() == self.handler(),
            embed.table() == self.table(),
    {
        proof {
            use_type_invariant(&self);
            lemma_both_ends_trimmed(path@);
        }
        let trimmed = trim_leading_slashes(trim_trailing_slashes(path));
        Embed {
            mount_path: self.mount_path,
            index_file_path: Some(String::from_str(trimmed)),
            strict_slash: self.strict_slash,
            fallback_handler: self.fallback_handler,
            assets: self.assets,
        }
    }

    /// Sets the handler that answers where no asset matches, in place of
    /// the one before.
    ///
    /// The default handler answers 404.
    pub fn fallback_handler<NF: FallbackHandler>(self, handler: NF) -> (embed: Embed<NF>)
        requires
            forall|req: Request| #[trigger] handler.accepts(&req),
        ensures
            embed.handler() == handler,
            embed.mount() == self.mount(),
            embed.is_strict() == self.is_strict(),
            embed.index() == self.index(),
            embed.table() == self.table(),
    {
        Embed {
            mount_path: self.mount_path,
            index_file_path: self.index_file_path,
            strict_slash: self.strict_slash,
            fallback_handler: Rc::new(handler),
            assets: self.assets,
        }
    }

    /// A service with these settings. It shares the assets and the fallback
    /// handler with the settings.
    pub fn new_service(&self) -> (service: EmbedService<F>)
        ensures
            service.is_strict() == self.is_strict(),
            service.index() == self.index(),
            service.handler() == self.handler(),
            service.table() == self.table(),
    {
        proof {
            use_type_invariant(self);
        }
        let strict_slash = self.strict_slash;
        let fallback_handler = share(&self.fallback_handler);
        let index_file_path = match &self.index_file_path {
            Some(path) => Some(path.clone()),
            None => None,
        };
        EmbedService::new(
            EmbedServiceInner {
                strict_slash,
                index_file_path,
                fallback_handler,
                assets: share(&self.assets),
            },
        )
    }
}

/// What the service holds: the settings that bear on an answer, the
/// fallback handler and the assets.
pub(crate) struct EmbedServiceInner<F: FallbackHandler> {
    pub(crate) strict_slash: bool,
    pub(crate) index_file_path: Option<String>,
    pub(crate) fallback_handler: Rc<F>,
    pub(crate) assets: Rc<Assets>,
}

/// The index file of the settings, as a sequence of characters.
pub open spec fn index_model(index_file_path: Option<String>) -> Option<Seq<char>> {
    match index_file_path {
        Some(path) => Some(path@),
        None => None,
    }
}

/// The request handler. It answers each request by itself: nothing of one
/// request bears on the next.
pub struct EmbedService<F: FallbackHandler> {
    inner: Rc<EmbedServiceInner<F>>,
}

impl<F: FallbackHandler> EmbedService<F> {
    /// The fallback handler answers every request.
    #[verifier::type_invariant]
    spec fn total(&self) -> bool {
        forall|req: Request| #[trigger] self.inner.fallback_handler.accepts(&req)
    }

    /// Whether a trailing `/` of the request path is kept.
    pub closed spec fn is_strict(&self) -> bool {
        self.inner.strict_slash
    }

    /// The path that stands in for the empty path, if there is one.
    pub closed spec fn index(&self) -> Option<Seq<char>> {
        index_model(self.inner.index_file_path)
    }

    /// The handler that answers where no asset matches.
    pub closed spec fn handler(&self) -> F {
        *self.inner.fallback_handler
    }

    /// The assets, by path.
    pub closed spec fn table(&self) -> Map<Seq<char>, AssetModel> {
        self.inner.assets@
    }

    /// Whether `resp` is an answer of this service to `req`: the answer that
    /// settings and assets fix, or, where no asset matches, one that the
    /// fallback handler gives.
    pub open spec fn answers(&self, req: &Request, resp: &Response) -> bool {
        match fixed_answer(self.is_strict(), self.index(), self.table(), req@) {
            Some(answer) => resp@ == answer,
            None => self.handler().answers(req, resp),
        }
    }

    /// Makes the service from what it holds.
    pub(crate) fn new(inner: EmbedServiceInner<F>) -> (service: Self)
        requires
            forall|req: Request| #[trigger] inner.fallback_handler.accepts(&req),
        ensures
            service.is_strict() == inner.strict_slash,
            service.index() == index_model(inner.index_file_path),
            service.handler() == inner.fallback_handler,
            service.table() == inner.assets@,
    {
        Self { inner: Rc::new(inner) }
    }

    /// The path by which the asset for the request path `path` is looked up.
    pub fn key(&self, path: &str) -> (key: String)
        ensures
            key@ == lookup_key(self.is_strict(), self.index(), path@),
    {
        let mut path = strip_leading_slash(path);
        if !self.inner.strict_slash {
            path = strip_trailing_slash(path);
        }
        if path.unicode_len() == 0 {
            match &self.inner.index_file_path {
                Some(index) => index.clone(),
                None => String::from_str(path),
            }
        } else {
            String::from_str(path)
        }
    }

    /// The answer that settings and assets fix for a request: 405 to another
    /// method than `GET`; for an asset that is found, 304 where the request
    /// holds its validator, else 200 with its content. `None` where no asset
    /// matches.
    pub fn answer(&self, req: &Request) -> (answer: Option<Response>)
        ensures
            match answer {
                Some(resp) => fixed_answer(self.is_strict(), self.index(), self.table(), req@)
                    == Some(resp@),
                None => fixed_answer(self.is_strict(), self.index(), self.table(), req@).is_none(),
            },
    {
        if !req.is_get() {
            return Some(method_not_allowed_response());
        }
        let key = self.key(req.path.as_str());
        match self.inner.assets.get(key.as_str()) {
            Some(entry) => {
                let content_type = media_type(key.as_str());
                Some(answer_found(req, entry, content_type))
            },
            None => None,
        }
    }

    /// Answers a request: with the answer that settings and assets fix, or,
    /// where no asset matches, with what the fallback handler gives for the
    /// request.
    pub fn call(&self, req: &Request) -> (resp: Response)
        ensures
            self.answers(req, &resp),
    {
        match self.answer(req) {
            Some(resp) => resp,
            None => {
                proof {
                    use_type_invariant(self);
                }
                self.inner.fallback_handler.execute(req)
            },
        }
    }
}

impl<F: FallbackHandler> Clone for EmbedService<F> {
    /// Another handle on the same service.
    fn clone(&self) -> (other: Self)
        ensures
            other == self,
    {
        proof {
            use_type_invariant(self);
        }
        EmbedService { inner: share(&self.inner) }
    }
}

} // verus!
