use vstd::prelude::*;

verus! {

/// A library, series or book on the Komga server.
#[derive(Debug)]
pub struct KomgaEntry {
    pub id: String,
    pub name: String,
}

impl KomgaEntry {
    /// The text under which the entry is offered to the operator: its name.
    pub fn label(&self) -> (r: String)
        ensures
            r@ == self.name@,
    {
        self.name.clone()
    }
}

/// The library to use without asking: the only one, where there is exactly
/// one. Otherwise the operator chooses.
pub fn single_library(libraries: &Vec<KomgaEntry>) -> (r: Option<String>)
    ensures
        r is Some <==> libraries.len() == 1,
        r matches Some(id) ==> id@ == libraries[0].id@,
{
    if libraries.len() == 1 {
        Some(libraries[0].id.clone())
    } else {
        None
    }
}

/// The id of the first book of a series listing, if it lists any.
pub fn first_book_id(books: &Vec<KomgaEntry>) -> (r: Option<String>)
    ensures
        r is Some <==> books.len() > 0,
        r matches Some(id) ==> id@ == books[0].id@,
{
    if books.len() > 0 {
        Some(books[0].id.clone())
    } else {
        None
    }
}

/// Where and as whom to reach the Komga server.
#[derive(Debug)]
pub struct KomgaConfig {
    pub url: String,
    pub email: String,
    pub password: String,
}

impl Default for KomgaConfig {
    fn default() -> (r: Self)
        ensures
            r.url@.len() == 0,
            r.email@.len() == 0,
            r.password@.len() == 0,
    {
        KomgaConfig { url: String::new(), email: String::new(), password: String::new() }
    }
}

/// The path of Komga's API below the server URL.
pub open spec fn api_path_of(base: Seq<char>, slug: Seq<char>) -> Seq<char> {
    base + "/api/v1/"@ + slug
}

impl KomgaConfig {
    /// Whether every field is filled in; an incomplete configuration is
    /// asked for again.
    pub fn is_complete(&self) -> (r: bool)
        ensures
            r == (self.url@.len() > 0 && self.email@.len() > 0 && self.password@.len() > 0),
    {
        !self.url.as_str().is_empty() && !self.email.as_str().is_empty()
            && !self.password.as_str().is_empty()
    }

    /// The password sent with basic authentication: none where it is empty.
    pub fn auth_password(&self) -> (r: Option<String>)
        ensures
            r is Some <==> self.password@.len() > 0,
            r matches Some(p) ==> p@ == self.password@,
    {
        if self.password.as_str().is_empty() {
            None
        } else {
            Some(self.password.clone())
        }
    }

    /// The full URL of an API endpoint, `slug` relative to `<url>/api/v1/`.
    pub fn api_url(&self, slug: &str) -> (r: String)
        ensures
            r@ == api_path_of(self.url@, slug@),
    {
        let mut s = self.url.clone();
        s.append("/api/v1/");
        s.append(slug);
        s
    }
}

/// The endpoint that holds a series' metadata.
pub fn series_metadata_slug(series_id: &str) -> (r: String)
    ensures
        r@ == "series/"@ + series_id@ + "/metadata"@,
{
    let mut s = String::from_str("series/");
    s.append(series_id);
    s.append("/metadata");
    s
}

/// The endpoint that lists a series' books.
pub fn series_books_slug(series_id: &str) -> (r: String)
    ensures
        r@ == "series/"@ + series_id@ + "/books"@,
{
    let mut s = String::from_str("series/");
    s.append(series_id);
    s.append("/books");
    s
}

/// The endpoint that holds a book's metadata.
pub fn book_metadata_slug(book_id: &str) -> (r: String)
    ensures
        r@ == "books/"@ + book_id@ + "/metadata"@,
{
    let mut s = String::from_str("books/");
    s.append(book_id);
    s.append("/metadata");
    s
}

} // verus!
