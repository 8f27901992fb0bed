//! What holds of every answer of the service.

use crate::assets::AssetModel;
use crate::etag::{is_hex_digit, lemma_lower_hex_injective, lemma_lower_hex_shape, lower_hex};
use crate::fallback_handler::{DefaultFallbackHandler, FallbackHandler};
use crate::http::{
    eq_ignore_ascii_case, get_method, header_value, if_none_match_name, Request, RequestModel,
    Response,
};
use crate::media_type::{media_type_for, octet_stream};
use crate::service::{
    content, fixed_answer, lookup_key, method_not_allowed, not_modified, EmbedService,
};
use crate::slashes::{no_slash_at_end, without_leading_slash, without_trailing_slash};
use vstd::prelude::*;

verus! {

/// Whether the request is a `GET`.
pub open spec fn is_get(req: RequestModel) -> bool {
    eq_ignore_ascii_case(req.method, get_method())
}

/// The request `req` with the path `path` in place of its own.
pub open spec fn with_path(req: RequestModel, path: Seq<char>) -> RequestModel {
    RequestModel { method: req.method, path, headers: req.headers }
}

/// Whether no path of the table ends with `/`.
pub open spec fn no_key_ends_with_slash(assets: Map<Seq<char>, AssetModel>) -> bool {
    forall|key: Seq<char>| #[trigger] assets.contains_key(key) ==> no_slash_at_end(key)
}

/// A request for `/` followed by the path of an asset is looked up by that
/// path, if the path is not empty and, unless slashes are strict, does
/// not end with `/`.
pub proof fn lemma_key_of_rooted_path(
    strict_slash: bool,
    index_file: Option<Seq<char>>,
    path: Seq<char>,
)
    requires
        path.len() > 0,
        strict_slash || path[path.len() - 1] != '/',
    ensures
        lookup_key(strict_slash, index_file, seq!['/'] + path) == path,
{
    let rooted = seq!['/'] + path;
    assert(rooted[0] == '/');
    assert(without_leading_slash(rooted) =~= path);
}

/// A `GET` request without `If-None-Match` whose lookup path is in the
/// table is answered with status 200, the hexadecimal digest of the asset
/// as `ETag`, and the content of the asset as body.
pub proof fn lemma_found_is_served<F: FallbackHandler>(
    service: EmbedService<F>,
    req: Request,
    resp: Response,
)
    requires
        service.answers(&req, &resp),
        is_get(req@),
        service.table().contains_key(lookup_key(service.is_strict(), service.index(), req@.path)),
        header_value(req@.headers, if_none_match_name()).is_none(),
    ensures
        ({
            let key = lookup_key(service.is_strict(), service.index(), req@.path);
            let asset = service.table()[key];
            &&& resp@ == content(media_type_for(key), lower_hex(asset.digest), asset.bytes)
            &&& resp@.status == 200
            &&& header_value(resp@.headers, "ETag"@) == Some(lower_hex(asset.digest))
            &&& resp@.body == asset.bytes
        }),
{
    let key = lookup_key(service.is_strict(), service.index(), req@.path);
    let asset = service.table()[key];
    lemma_etag_of_content(media_type_for(key), lower_hex(asset.digest), asset.bytes);
}

/// The `Content-Type` header of an answer with content holds its content type.
pub proof fn lemma_content_type_of_content(media_type: Seq<char>, etag: Seq<char>, bytes: Seq<u8>)
    ensures
        header_value(content(media_type, etag, bytes).headers, "Content-Type"@) == Some(
            media_type,
        ),
{
    let headers = content(media_type, etag, bytes).headers;
    assert(eq_ignore_ascii_case(headers[0].name, "Content-Type"@));
}

/// An asset whose path has no `.` is served as data of unknown kind.
pub proof fn lemma_no_extension_is_octet_stream<F: FallbackHandler>(
    service: EmbedService<F>,
    req: Request,
    resp: Response,
)
    requires
        service.answers(&req, &resp),
        is_get(req@),
        service.table().contains_key(lookup_key(service.is_strict(), service.index(), req@.path)),
        header_value(req@.headers, if_none_match_name()).is_none(),
        !lookup_key(service.is_strict(), service.index(), req@.path).contains('.'),
    ensures
        header_value(resp@.headers, "Content-Type"@) == Some(octet_stream()),
{
    let key = lookup_key(service.is_strict(), service.index(), req@.path);
    let asset = service.table()[key];
    lemma_content_type_of_content(octet_stream(), lower_hex(asset.digest), asset.bytes);
}

/// The `ETag` header of an answer with content holds its validator.
pub proof fn lemma_etag_of_content(media_type: Seq<char>, etag: Seq<char>, bytes: Seq<u8>)
    ensures
        header_value(content(media_type, etag, bytes).headers, "ETag"@) == Some(etag),
{
    let headers = content(media_type, etag, bytes).headers;
    let rest = headers.subrange(1, headers.len() as int);
    reveal_strlit("ETag");
    reveal_strlit("Content-Type");
    assert(!eq_ignore_ascii_case(headers[0].name, "ETag"@));
    assert(rest[0] == headers[1]);
    assert(eq_ignore_ascii_case(rest[0].name, "ETag"@));
    reveal_with_fuel(header_value, 3);
}

/// A second `GET` request for an asset that carries in `If-None-Match`
/// the `ETag` of the answer to a first one, which carried none, is answered
/// with status 304 and an empty body.
pub proof fn lemma_revalidation_is_not_modified<F: FallbackHandler>(
    service: EmbedService<F>,
    first: Request,
    first_resp: Response,
    second: Request,
    second_resp: Response,
)
    requires
        service.answers(&first, &first_resp),
        service.answers(&second, &second_resp),
        is_get(first@),
        is_get(second@),
        service.table().contains_key(
            lookup_key(service.is_strict(), service.index(), first@.path),
        ),
        header_value(first@.headers, if_none_match_name()).is_none(),
        second@.path == first@.path,
        header_value(second@.headers, if_none_match_name()) == header_value(
            first_resp@.headers,
            "ETag"@,
        ),
    ensures
        second_resp@ == not_modified(),
        second_resp@.status == 304,
        second_resp@.body.len() == 0,
        second_resp@.headers.len() == 0,
{
    lemma_found_is_served(service, first, first_resp);
}

/// A `GET` request for an asset that carries in `If-None-Match` the
/// validator of another digest than the asset's is answered with the
/// content, as if it carried none.
pub proof fn lemma_stale_validator_is_served(
    strict_slash: bool,
    index_file: Option<Seq<char>>,
    assets: Map<Seq<char>, AssetModel>,
    req: RequestModel,
    digest: Seq<u8>,
)
    requires
        is_get(req),
        assets.contains_key(lookup_key(strict_slash, index_file, req.path)),
        header_value(req.headers, if_none_match_name()) == Some(lower_hex(digest)),
        digest != assets[lookup_key(strict_slash, index_file, req.path)].digest,
    ensures
        ({
            let key = lookup_key(strict_slash, index_file, req.path);
            fixed_answer(strict_slash, index_file, assets, req) == Some(
                content(media_type_for(key), lower_hex(assets[key].digest), assets[key].bytes),
            )
        }),
{
    let key = lookup_key(strict_slash, index_file, req.path);
    if lower_hex(digest) == lower_hex(assets[key].digest) {
        lemma_lower_hex_injective(digest, assets[key].digest);
    }
}

/// A `GET` request for an asset whose `If-None-Match` is no validator at
/// all, because it has another length than a validator of the asset or
/// holds a character that is no lowercase hexadecimal digit, is answered with
/// the content, as if it carried none.
pub proof fn lemma_malformed_validator_is_served(
    strict_slash: bool,
    index_file: Option<Seq<char>>,
    assets: Map<Seq<char>, AssetModel>,
    req: RequestModel,
    value: Seq<char>,
)
    requires
        is_get(req),
        assets.contains_key(lookup_key(strict_slash, index_file, req.path)),
        header_value(req.headers, if_none_match_name()) == Some(value),
        value.len() != 2 * assets[lookup_key(strict_slash, index_file, req.path)].digest.len()
            || exists|i: int| 0 <= i < value.len() && !is_hex_digit(#[trigger] value[i]),
    ensures
        ({
            let key = lookup_key(strict_slash, index_file, req.path);
            fixed_answer(strict_slash, index_file, assets, req) == Some(
                content(media_type_for(key), lower_hex(assets[key].digest), assets[key].bytes),
            )
        }),
{
    let key = lookup_key(strict_slash, index_file, req.path);
    lemma_lower_hex_shape(assets[key].digest);
}

/// A request with another method than `GET` is answered with status 405
/// and nothing else, whatever its path and whatever the assets.
pub proof fn lemma_other_method_is_refused<F: FallbackHandler>(
    service: EmbedService<F>,
    req: Request,
    resp: Response,
)
    requires
        service.answers(&req, &resp),
        !is_get(req@),
    ensures
        resp@ == method_not_allowed(),
        resp@.status == 405,
        resp@.body.len() == 0,
        resp@.headers.len() == 0,
{
}

/// Two answers to one request are equal, where an asset matches or the
/// fallback handler gives one answer only to that request.
pub proof fn lemma_same_request_same_answer<F: FallbackHandler>(
    service: EmbedService<F>,
    req: Request,
    first: Response,
    second: Response,
)
    requires
        service.answers(&req, &first),
        service.answers(&req, &second),
        fixed_answer(service.is_strict(), service.index(), service.table(), req@).is_none()
            ==> forall|a: Response, b: Response|
            service.handler().answers(&req, &a) && service.handler().answers(&req, &b) ==> a@
                == b@,
    ensures
        first@ == second@,
{
}

/// With the default fallback handler, two answers to one request are equal.
pub proof fn lemma_same_request_same_answer_by_default(
    service: EmbedService<DefaultFallbackHandler>,
    req: Request,
    first: Response,
    second: Response,
)
    requires
        service.answers(&req, &first),
        service.answers(&req, &second),
    ensures
        first@ == second@,
{
}

/// Unless slashes are strict, one more `/` at the end of a request path
/// that does not end with one changes nothing: the lookup path is the
/// same, and so is the answer that settings and assets fix.
pub proof fn lemma_trailing_slash_is_dropped(
    index_file: Option<Seq<char>>,
    assets: Map<Seq<char>, AssetModel>,
    req: RequestModel,
)
    requires
        req.path.len() == 0 || req.path[req.path.len() - 1] != '/',
    ensures
        lookup_key(false, index_file, req.path + seq!['/']) == lookup_key(
            false,
            index_file,
            req.path,
        ),
        fixed_answer(false, index_file, assets, with_path(req, req.path + seq!['/']))
            == fixed_answer(false, index_file, assets, req),
{
    let path = req.path;
    let longer = path + seq!['/'];
    if path.len() == 0 {
        assert(without_leading_slash(longer) =~= path);
    } else {
        let relative = without_leading_slash(path);
        assert(without_leading_slash(longer) =~= relative + seq!['/']);
        assert(without_trailing_slash(relative + seq!['/']) =~= relative);
        if relative.len() > 0 {
            assert(relative[relative.len() - 1] == path[path.len() - 1]);
        }
        assert(without_trailing_slash(relative) == relative);
    }
}

/// Unless slashes are strict, a request for an asset and the same request
/// with one more `/` at the end of its path have the same answer.
pub proof fn lemma_trailing_slash_same_answer<F: FallbackHandler>(
    service: EmbedService<F>,
    plain: Request,
    plain_resp: Response,
    slashed: Request,
    slashed_resp: Response,
)
    requires
        !service.is_strict(),
        service.answers(&plain, &plain_resp),
        service.answers(&slashed, &slashed_resp),
        slashed@ == with_path(plain@, plain@.path + seq!['/']),
        plain@.path.len() == 0 || plain@.path[plain@.path.len() - 1] != '/',
        is_get(plain@) ==> service.table().contains_key(
            lookup_key(false, service.index(), plain@.path),
        ),
    ensures
        slashed_resp@ == plain_resp@,
{
    lemma_trailing_slash_is_dropped(service.index(), service.table(), plain@);
}

/// Where slashes are strict and no path of the table ends with `/`, a
/// `GET` request whose path is longer than `/` and ends with `/` matches
/// no asset.
pub proof fn lemma_strict_slash_is_kept(
    index_file: Option<Seq<char>>,
    assets: Map<Seq<char>, AssetModel>,
    req: RequestModel,
)
    requires
        is_get(req),
        no_key_ends_with_slash(assets),
        without_leading_slash(req.path).len() > 0,
        req.path[req.path.len() - 1] == '/',
    ensures
        fixed_answer(true, index_file, assets, req).is_none(),
{
    let key = lookup_key(true, index_file, req.path);
    assert(key == without_leading_slash(req.path));
    assert(key[key.len() - 1] == '/');
}

/// Without an index file, and without an asset whose path is empty, a `GET`
/// request for the root matches no asset.
pub proof fn lemma_root_without_index_is_a_miss(
    strict_slash: bool,
    assets: Map<Seq<char>, AssetModel>,
    req: RequestModel,
)
    requires
        is_get(req),
        req.path == seq!['/'] || req.path.len() == 0,
        !assets.contains_key(Seq::<char>::empty()),
    ensures
        fixed_answer(strict_slash, None, assets, req).is_none(),
{
    let key = lookup_key(strict_slash, None, req.path);
    assert(without_leading_slash(req.path) =~= Seq::<char>::empty());
    assert(key =~= Seq::<char>::empty());
}

/// With an index file, a request for the root and the same request for the
/// index file itself are looked up by the same path and have the same fixed
/// answer.
pub proof fn lemma_root_is_the_index_file(
    strict_slash: bool,
    index_file: Seq<char>,
    assets: Map<Seq<char>, AssetModel>,
    req: RequestModel,
)
    requires
        req.path == seq!['/'],
        no_slash_at_end(index_file),
    ensures
        lookup_key(strict_slash, Some(index_file), req.path) == index_file,
        fixed_answer(strict_slash, Some(index_file), assets, with_path(req, seq!['/'] + index_file))
            == fixed_answer(strict_slash, Some(index_file), assets, req),
{
    assert(without_leading_slash(req.path) =~= Seq::<char>::empty());
    let direct = seq!['/'] + index_file;
    assert(direct[0] == '/');
    assert(without_leading_slash(direct) =~= index_file);
    assert(without_trailing_slash(index_file) == index_file);
}

/// With an index file that is an asset, a request for the root and the
/// same request for the index file itself have the same answer.
pub proof fn lemma_root_same_answer_as_index<F: FallbackHandler>(
    service: EmbedService<F>,
    root: Request,
    root_resp: Response,
    direct: Request,
    direct_resp: Response,
)
    requires
        service.answers(&root, &root_resp),
        service.answers(&direct, &direct_resp),
        service.index().is_some(),
        no_slash_at_end(service.index().unwrap()),
        service.table().contains_key(service.index().unwrap()),
        root@.path == seq!['/'],
        direct@ == with_path(root@, seq!['/'] + service.index().unwrap()),
    ensures
        direct_resp@ == root_resp@,
{
    lemma_root_is_the_index_file(
        service.is_strict(),
        service.index().unwrap(),
        service.table(),
        root@,
    );
}

/// Where no asset matches, the answer is one of the fallback handler.
pub proof fn lemma_miss_is_left_to_fallback<F: FallbackHandler>(
    service: EmbedService<F>,
    req: Request,
    resp: Response,
)
    requires
        service.answers(&req, &resp),
        is_get(req@),
        !service.table().contains_key(
            lookup_key(service.is_strict(), service.index(), req@.path),
        ),
    ensures
        service.handler().answers(&req, &resp),
{
}

} // verus!
