use vstd::prelude::*;

use crate::domain::{Database, RequestCounter};

verus! {

/// A request for a book.
pub struct GetBookRequest {
    pub id: String,
}

/// The book that answers a request, with the number of requests served so far.
pub struct GetBookResponse {
    pub id: String,
    pub author: String,
    pub name: String,
    pub year: i32,
    pub counter: u64,
}

/// A book response over mathematical values.
pub struct BookView {
    pub id: Seq<char>,
    pub author: Seq<char>,
    pub name: Seq<char>,
    pub year: i32,
    pub counter: u64,
}

impl View for GetBookResponse {
    type V = BookView;

    open spec fn view(&self) -> BookView {
        BookView {
            id: self.id@,
            author: self.author@,
            name: self.name@,
            year: self.year,
            counter: self.counter,
        }
    }
}

/// The answer to a request for the book `id` when `counter` requests were served,
/// this one included.
pub open spec fn book_answer(id: Seq<char>, counter: u64) -> BookView {
    BookView { id, author: "Peter"@, name: "Zero to One"@, year: 2014, counter }
}

/// Every answer carries the requested id unchanged, whatever it is, names the book
/// "Zero to One" by Peter of 2014, and reports the given count.
pub proof fn lemma_answer_echoes_request(id: Seq<char>, counter: u64)
    ensures
        book_answer(id, counter).id == id,
        book_answer(id, counter).id.len() == id.len(),
        book_answer(id, counter).author == "Peter"@,
        book_answer(id, counter).name == "Zero to One"@,
        book_answer(id, counter).year == 2014,
        book_answer(id, counter).counter == counter,
{
}

/// The book store service over a request counter `D`.
pub struct BookStoreImpl<D> {
    pub database: D,
}

impl<D: Database<RequestCounter>> BookStoreImpl<D> {
    /// A book store that counts its requests in `database`.
    pub fn new(database: D) -> (store: Self)
        ensures
            store.database == database,
    {
        BookStoreImpl { database }
    }

    /// Counts this request, then answers it with the book and the count of
    /// requests served, this one included.
    pub fn get_book(&mut self, request: GetBookRequest) -> (response: GetBookResponse)
        ensures
            final(self).database.stored() == D::advanced(old(self).database.stored()),
            response@ == book_answer(request.id@, final(self).database.stored().counter),
            response.id@ == request.id@,
            response.author@ == "Peter"@,
            response.name@ == "Zero to One"@,
            response.year == 2014,
            response.counter == final(self).database.stored().counter,
    {
        self.database.increase();
        let counter = self.database.read().counter;
        GetBookResponse {
            id: request.id,
            author: String::from_str("Peter"),
            name: String::from_str("Zero to One"),
            year: 2014,
            counter,
        }
    }
}

} // verus!
