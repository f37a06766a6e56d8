//! Building an HTTP request from a method, a URL, headers, query parameters
//! and a body.
use crate::text::{clone_optional, clone_pairs};
use vstd::prelude::*;

verus! {

/// An HTTP request.
#[derive(Debug)]
pub struct HttpRequest {
    pub method: String,
    pub url: String,
    pub headers: Vec<(String, String)>,
    pub query_params: Vec<(String, String)>,
    pub body: Option<String>,
}

/// Collects the parts of a request. Headers and query parameters pile up in
/// the order they are added, over every build; the method, the URL and the
/// body are replaced when set again.
#[derive(Debug)]
pub struct CustomHttpRequestBuilder {
    pub method: String,
    pub url: String,
    pub headers: Vec<(String, String)>,
    pub query_params: Vec<(String, String)>,
    pub body: Option<String>,
}

impl CustomHttpRequestBuilder {
    /// A builder with an empty method and URL, no headers, no query
    /// parameters and no body.
    pub fn new() -> (builder: Self)
        ensures
            builder.method@.len() == 0,
            builder.url@.len() == 0,
            builder.headers@.len() == 0,
            builder.query_params@.len() == 0,
            builder.body is None,
    {
        CustomHttpRequestBuilder {
            method: String::new(),
            url: String::new(),
            headers: Vec::new(),
            query_params: Vec::new(),
            body: None,
        }
    }

    /// Sets the method.
    pub fn set_method(&mut self, method: &str) -> (builder: &mut Self)
        ensures
            builder.method@ == method@,
            builder.url == old(self).url,
            builder.headers == old(self).headers,
            builder.query_params == old(self).query_params,
            builder.body == old(self).body,
            *final(self) == *final(builder),
    {
        self.method = method.to_string();
        self
    }

    /// Sets the URL.
    pub fn set_url(&mut self, url: &str) -> (builder: &mut Self)
        ensures
            builder.method == old(self).method,
            builder.url@ == url@,
            builder.headers == old(self).headers,
            builder.query_params == old(self).query_params,
            builder.body == old(self).body,
            *final(self) == *final(builder),
    {
        self.url = url.to_string();
        self
    }

    /// Adds a header behind those added before.
    pub fn add_header(&mut self, key: &str, value: &str) -> (builder: &mut Self)
        ensures
            builder.method == old(self).method,
            builder.url == old(self).url,
            builder.headers@.len() == old(self).headers@.len() + 1,
            builder.headers@.drop_last() == old(self).headers@,
            builder.headers@.last().0@ == key@,
            builder.headers@.last().1@ == value@,
            builder.query_params == old(self).query_params,
            builder.body == old(self).body,
            *final(self) == *final(builder),
    {
        self.headers.push((key.to_string(), value.to_string()));
        proof {
            assert(self.headers@.drop_last() =~= old(self).headers@);
        }
        self
    }

    /// Adds a query parameter behind those added before.
    pub fn add_query_param(&mut self, key: &str, value: &str) -> (builder: &mut Self)
        ensures
            builder.method == old(self).method,
            builder.url == old(self).url,
            builder.headers == old(self).headers,
            builder.query_params@.len() == old(self).query_params@.len() + 1,
            builder.query_params@.drop_last() == old(self).query_params@,
            builder.query_params@.last().0@ == key@,
            builder.query_params@.last().1@ == value@,
            builder.body == old(self).body,
            *final(self) == *final(builder),
    {
        self.query_params.push((key.to_string(), value.to_string()));
        proof {
            assert(self.query_params@.drop_last() =~= old(self).query_params@);
        }
        self
    }

    /// Sets the body.
    pub fn set_body(&mut self, body: &str) -> (builder: &mut Self)
        ensures
            builder.method == old(self).method,
            builder.url == old(self).url,
            builder.headers == old(self).headers,
            builder.query_params == old(self).query_params,
            builder.body is Some,
            builder.body->0@ == body@,
            *final(self) == *final(builder),
    {
        self.body = Some(body.to_string());
        self
    }

    /// The request made of the parts collected so far. The builder keeps
    /// them.
    pub fn build(&self) -> (request: HttpRequest)
        ensures
            request.method == self.method,
            request.url == self.url,
            request.headers@ == self.headers@,
            request.query_params@ == self.query_params@,
            request.body == self.body,
    {
        HttpRequest {
            method: self.method.clone(),
            url: self.url.clone(),
            headers: clone_pairs(&self.headers),
            query_params: clone_pairs(&self.query_params),
            body: clone_optional(&self.body),
        }
    }
}

} // verus!
