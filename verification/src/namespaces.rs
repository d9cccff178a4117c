use vstd::prelude::*;

use crate::my_socket_io::MySocketIo;
use crate::text::str_eq;

verus! {

/// Index of the first entry registered under `nsp`.
pub open spec fn find_nsp<T>(s: Seq<(String, T)>, nsp: Seq<char>) -> Option<int>
    decreases s.len(),
{
    if s.len() == 0 {
        None
    } else if s[0].0@ == nsp {
        Some(0int)
    } else {
        match find_nsp(s.drop_first(), nsp) {
            Some(i) => Some(i + 1),
            None => None,
        }
    }
}

/// Registering an entry: one already registered under the same namespace is
/// replaced, otherwise the new one is appended.
pub open spec fn add_handler<T>(s: Seq<(String, T)>, entry: (String, T)) -> Seq<(String, T)> {
    match find_nsp(s, entry.0@) {
        Some(i) => s.update(i, entry),
        None => s.push(entry),
    }
}

pub proof fn lemma_find_nsp_at<T>(s: Seq<(String, T)>, nsp: Seq<char>, i: int)
    requires
        0 <= i < s.len(),
        s[i].0@ == nsp,
        forall|j: int| 0 <= j < i ==> s[j].0@ != nsp,
    ensures
        find_nsp(s, nsp) == Some(i),
    decreases s.len(),
{
    if i > 0 {
        lemma_find_nsp_at(s.drop_first(), nsp, i - 1);
    }
}

pub proof fn lemma_find_nsp_none<T>(s: Seq<(String, T)>, nsp: Seq<char>)
    requires
        forall|j: int| 0 <= j < s.len() ==> s[j].0@ != nsp,
    ensures
        find_nsp(s, nsp) is None,
    decreases s.len(),
{
    if s.len() > 0 {
        lemma_find_nsp_none(s.drop_first(), nsp);
    }
}

/// The read-only (after startup) map from a namespace path to the
/// application handler responsible for that namespace's events.  Each entry
/// keeps the path it was registered under beside its handler.
pub struct SocketIoNameSpaces<T> {
    pub items: Vec<(String, T)>,
}

impl<T: MySocketIo> SocketIoNameSpaces<T> {
    pub fn new() -> (r: Self)
        ensures
            r.items@.len() == 0,
    {
        SocketIoNameSpaces { items: Vec::new() }
    }

    /// Index of the entry registered under `nsp`, if any.
    fn index_of_nsp(&self, nsp: &str) -> (r: Option<usize>)
        ensures
            match r {
                Some(i) => i < self.items@.len() && find_nsp(self.items@, nsp@) == Some(i as int),
                None => find_nsp(self.items@, nsp@) is None,
            },
    {
        let n = self.items.len();
        let mut i: usize = 0;
        while i < n
            invariant
                i <= n,
                n == self.items@.len(),
                forall|j: int| 0 <= j < i ==> self.items@[j].0@ != nsp@,
            decreases n - i,
        {
            if str_eq(self.items[i].0.as_str(), nsp) {
                proof {
                    lemma_find_nsp_at(self.items@, nsp@, i as int);
                }
                return Some(i);
            }
            i = i + 1;
        }
        proof {
            lemma_find_nsp_none(self.items@, nsp@);
        }
        None
    }

    /// The handler registered under `nsp`, if any.
    pub fn get(&self, nsp: &str) -> (r: Option<&T>)
        ensures
            match find_nsp(self.items@, nsp@) {
                Some(i) => r matches Some(h) && *h == self.items@[i].1,
                None => r is None,
            },
    {
        match self.index_of_nsp(nsp) {
            Some(i) => Some(&self.items[i].1),
            None => None,
        }
    }

    /// Register a handler under the namespace it names (whatever path its
    /// `get_nsp` returned); a handler already registered under that path is
    /// replaced.
    pub fn add(&mut self, socket: T)
        ensures
            exists|key: String|
                final(self).items@ == add_handler(old(self).items@, (key, socket)),
    {
        let key = socket.get_nsp().to_owned();
        let ghost k = key;
        let entry = (key, socket);
        match self.index_of_nsp(entry.0.as_str()) {
            Some(i) => {
                self.items.set(i, entry);
            },
            None => {
                self.items.push(entry);
            },
        }
        proof {
            assert(self.items@ == add_handler(old(self).items@, (k, socket)));
        }
    }

    /// Whether any handler is registered under `nsp`.
    pub fn has_nsp(&self, nsp: &str) -> (r: bool)
        ensures
            r == (find_nsp(self.items@, nsp@) is Some),
    {
        match self.index_of_nsp(nsp) {
            Some(_) => true,
            None => false,
        }
    }
}

} // verus!
