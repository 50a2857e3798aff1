//! The client: a credential, the addresses to ask, and the replies read.

use vstd::prelude::*;
use crate::error::ApiError;
use crate::error::RequestError;
use crate::error::VarError;
use crate::json::JsonValue;
use crate::json::Tree;
use crate::parser::reading;
use crate::reply::json_to_langs;
use crate::reply::json_to_object;
use crate::reply::langs_answer;
use crate::reply::lookup_answer;
use crate::reply::object_answer;
use crate::reply::texts;
use crate::reply::Reply;
use crate::url::build_langs_url;
use crate::url::build_lookup_url;
use crate::url::langs_url;
use crate::url::lookup_url;
use crate::words::def_views;
use crate::words::json_to_defs;
use crate::words::Def;
use crate::words::DefView;

verus! {

/// A client of the service. It holds the credential that every request
/// carries.
pub struct Api {
    token: String,
}

impl View for Api {
    type V = Seq<char>;

    /// The credential.
    closed spec fn view(&self) -> Seq<char> {
        self.token@
    }
}

impl Api {
    /// A client with the credential given.
    pub fn from_token(token: &str) -> (made: Result<Api, ApiError>)
        ensures
            made matches Ok(api) && api@ == token@,
    {
        Ok(Api { token: token.to_owned() })
    }

    /// A client with the credential that the environment holds. `found` is
    /// what the lookup of the variable gave: the credential, or why there is
    /// none.
    pub fn from_env(found: Result<String, VarError>) -> (made: Result<Api, ApiError>)
        ensures
            match found {
                Ok(token) => made matches Ok(api) && api@ == token@,
                Err(why) => made == Err::<Api, ApiError>(ApiError::InvalidEnvironmentVar(why)),
            },
    {
        let token = match found {
            Ok(tok) => tok,
            Err(e) => return Err(ApiError::InvalidEnvironmentVar(e)),
        };
        Self::from_token(token.as_str())
    }

    /// The address to ask for the list of languages.
    pub fn get_langs_url(&self) -> (url: String)
        ensures
            url@ == langs_url(self@),
    {
        build_langs_url(self.token.as_str())
    }

    /// The address to ask for a text in a pair of languages, such as `en-ru`.
    pub fn lookup_url(&self, lang: &str, text: &str) -> (url: String)
        ensures
            url@ == lookup_url(self@, lang@, text@),
    {
        build_lookup_url(self.token.as_str(), lang, text)
    }

    /// The pairs of languages that the service translates between, from the
    /// reply to a request at [`Api::get_langs_url`].
    pub fn get_langs(&self, reply: &Reply) -> (outcome: Result<Vec<String>, RequestError>)
        ensures
            match outcome {
                Ok(langs) => langs_answer(reply.status, reading(reply.body@)) == Ok::<
                    Seq<Seq<char>>,
                    RequestError,
                >(texts(langs@)),
                Err(error) => langs_answer(reply.status, reading(reply.body@)) == Err::<
                    Seq<Seq<char>>,
                    RequestError,
                >(error),
            },
    {
        let json = reply.fetch_json()?;
        json_to_langs(&json)
    }

    /// The object in the reply to a request at [`Api::lookup_url`], as the
    /// service sent it.
    pub fn lookup(&self, reply: &Reply) -> (outcome: Result<JsonValue, RequestError>)
        ensures
            match outcome {
                Ok(object) => object_answer(reply.status, reading(reply.body@)) == Ok::<
                    Tree,
                    RequestError,
                >(object@) && object@.well_formed(),
                Err(error) => object_answer(reply.status, reading(reply.body@)) == Err::<
                    Tree,
                    RequestError,
                >(error),
            },
    {
        let json = reply.fetch_json()?;
        json_to_object(json)
    }

    /// The definitions in the reply to a request at [`Api::lookup_url`]: all
    /// of them, or an error.
    pub fn lookup_def(&self, reply: &Reply) -> (outcome: Result<Vec<Def>, RequestError>)
        ensures
            match outcome {
                Ok(defs) => lookup_answer(reply.status, reading(reply.body@)) == Ok::<
                    Seq<DefView>,
                    RequestError,
                >(def_views(defs@)),
                Err(error) => lookup_answer(reply.status, reading(reply.body@)) == Err::<
                    Seq<DefView>,
                    RequestError,
                >(error),
            },
    {
        let json = self.lookup(reply)?;
        json_to_defs(&json)
    }
}

} // verus!
