//! The requests of the models endpoint: where they go, the client version
//! they carry, and the order in which a provider's model list is asked for.

use vstd::prelude::*;

use crate::provider_models::ProviderModel;

verus! {

/// The path of the models endpoint, below the provider's base URL.
pub fn models_path() -> (res: &'static str)
    ensures
        res@ == "models"@,
{
    "models"
}

/// `url` with the query parameter `client_version` added: after a `&` where
/// the URL has a query already, else after a `?`.
pub open spec fn with_client_version(url: Seq<char>, client_version: Seq<char>) -> Seq<char> {
    url + (if url.contains('?') {
        "&"@
    } else {
        "?"@
    }) + "client_version="@ + client_version
}

/// Whether `s` holds a `?`.
fn has_question_mark(s: &str) -> (res: bool)
    ensures
        res == s@.contains('?'),
{
    let n = s.unicode_len();
    let mut i: usize = 0;
    while i < n
        invariant
            n == s@.len(),
            i <= n,
            forall|j: int| 0 <= j < i ==> s@[j] != '?',
        decreases n - i,
    {
        if s.get_char(i) == '?' {
            return true;
        }
        i += 1;
    }
    false
}

/// Adds the client version to a request URL as a query parameter.
pub fn append_client_version_query(url: &mut String, client_version: &str)
    ensures
        final(url)@ == with_client_version(old(url)@, client_version@),
{
    if has_question_mark(url.as_str()) {
        url.append("&");
    } else {
        url.append("?");
    }
    url.append("client_version=");
    url.append(client_version);
}

/// A URL that carries the client version has a query; so appending to it a
/// second time goes after a `&`.
pub proof fn with_client_version_has_query(url: Seq<char>, client_version: Seq<char>)
    ensures
        with_client_version(url, client_version).contains('?'),
        with_client_version(url, client_version).subrange(0, url.len() as int) == url,
{
    reveal_strlit("&");
    reveal_strlit("?");
    reveal_strlit("client_version=");
    let r = with_client_version(url, client_version);
    if url.contains('?') {
        let k = choose|k: int| 0 <= k < url.len() && url[k] == '?';
        assert(r[k] == url[k]);
    } else {
        assert(r[url.len() as int] == '?');
    }
    assert(r.subrange(0, url.len() as int) =~= url);
}


/// Where the listing of a provider's models stands.
pub enum ProviderListing<E> {
    /// The models path was asked.
    AtModelsPath,
    /// The models path listed nothing; the provider root was asked.
    AtRootAfterEmpty,
    /// The models path failed with this error; the provider root was asked.
    AtRootAfterError(E),
}

/// What to do next in the listing of a provider's models.
pub enum ListingAction<E> {
    /// Ask `path` (below the provider's base URL) and hand the answer to
    /// `state`.
    Fetch { path: String, state: ProviderListing<E> },
    /// The listing is over with this result.
    Finish(Result<Vec<ProviderModel>, E>),
}

/// `action` is what follows `answer` in `state`: a non-empty list from the
/// models path is the result; an empty one or an error there sends the
/// listing to the provider root, whose list is then the result, and whose
/// error gives the empty list or the first error.
pub open spec fn listing_step<E>(
    state: ProviderListing<E>,
    answer: Result<Vec<ProviderModel>, E>,
    action: ListingAction<E>,
) -> bool {
    match state {
        ProviderListing::AtModelsPath => match answer {
            Ok(models) => if models@.len() > 0 {
                action == ListingAction::<E>::Finish(Ok(models))
            } else {
                action matches ListingAction::Fetch { path, state } && path@ == ""@
                    && state is AtRootAfterEmpty
            },
            Err(e) => action matches ListingAction::Fetch { path, state } && path@ == ""@
                && state == ProviderListing::AtRootAfterError(e),
        },
        ProviderListing::AtRootAfterEmpty => match answer {
            Ok(models) => action == ListingAction::<E>::Finish(Ok(models)),
            Err(_) => action matches ListingAction::Finish(Ok(models)) && models@.len() == 0,
        },
        ProviderListing::AtRootAfterError(primary) => match answer {
            Ok(models) => action == ListingAction::<E>::Finish(Ok(models)),
            Err(_) => action == ListingAction::<E>::Finish(Err(primary)),
        },
    }
}

impl<E> ProviderListing<E> {
    /// The first request of a listing: the models path.
    pub fn start() -> (res: ListingAction<E>)
        ensures
            res matches ListingAction::Fetch { path, state } && path@ == "models"@
                && state is AtModelsPath,
    {
        ListingAction::Fetch { path: String::from_str(models_path()), state: ProviderListing::AtModelsPath }
    }

    /// What follows the answer to the last request.
    pub fn step(self, answer: Result<Vec<ProviderModel>, E>) -> (res: ListingAction<E>)
        ensures
            listing_step(self, answer, res),
    {
        match self {
            ProviderListing::AtModelsPath => match answer {
                Ok(models) => if models.len() > 0 {
                    ListingAction::Finish(Ok(models))
                } else {
                    ListingAction::Fetch {
                        path: String::from_str(""),
                        state: ProviderListing::AtRootAfterEmpty,
                    }
                },
                Err(e) => ListingAction::Fetch {
                    path: String::from_str(""),
                    state: ProviderListing::AtRootAfterError(e),
                },
            },
            ProviderListing::AtRootAfterEmpty => match answer {
                Ok(models) => ListingAction::Finish(Ok(models)),
                Err(_) => ListingAction::Finish(Ok(Vec::new())),
            },
            ProviderListing::AtRootAfterError(primary) => match answer {
                Ok(models) => ListingAction::Finish(Ok(models)),
                Err(_) => ListingAction::Finish(Err(primary)),
            },
        }
    }
}

/// The result of listing a provider's models, given the answer of the
/// models path and the answer the provider root would give.
pub open spec fn listing_outcome<E>(
    primary: Result<Vec<ProviderModel>, E>,
    root: Result<Vec<ProviderModel>, E>,
    result: Result<Vec<ProviderModel>, E>,
) -> bool {
    match primary {
        Ok(models) => if models@.len() > 0 {
            result == Ok::<Vec<ProviderModel>, E>(models)
        } else {
            match root {
                Ok(fallback) => result == Ok::<Vec<ProviderModel>, E>(fallback),
                Err(_) => result matches Ok(empty) && empty@.len() == 0,
            }
        },
        Err(e) => match root {
            Ok(fallback) => result == Ok::<Vec<ProviderModel>, E>(fallback),
            Err(_) => result == Err::<Vec<ProviderModel>, E>(e),
        },
    }
}

/// A listing asks at most twice: the models path, then, only when that
/// lists nothing or fails, the provider root; and it ends with the result
/// that `listing_outcome` gives for the two answers.
pub proof fn listing_ends_with_outcome<E>(
    primary: Result<Vec<ProviderModel>, E>,
    root: Result<Vec<ProviderModel>, E>,
    first: ListingAction<E>,
    second: ListingAction<E>,
)
    requires
        listing_step(ProviderListing::AtModelsPath, primary, first),
        first matches ListingAction::Fetch { state, .. } ==> listing_step(state, root, second),
    ensures
        first matches ListingAction::Finish(result) ==> listing_outcome(primary, root, result),
        first is Fetch ==> (second matches ListingAction::Finish(result) && listing_outcome(
            primary,
            root,
            result,
        )),
{
}

} // verus!
