//! Headers and the collection that holds one value for each header name.

use vstd::prelude::*;
use vstd::string::*;

verus! {

/// One header: a name, kept as it was received, and its value.
#[derive(Debug)]
pub struct HttpHeader {
    pub name: String,
    pub value: String,
}

/// The line that carries one header on the wire: `Name: Value` and a line break.
pub open spec fn header_line(name: Seq<char>, value: Seq<char>) -> Seq<char> {
    name + seq![':', ' '] + value + seq!['\r', '\n']
}

/// The lines of the headers that `order` names, one after the other.
pub open spec fn header_block(map: Map<Seq<char>, Seq<char>>, order: Seq<Seq<char>>) -> Seq<char>
    decreases order.len(),
{
    if order.len() == 0 {
        Seq::empty()
    } else {
        header_block(map, order.drop_last()) + header_line(order.last(), map[order.last()])
    }
}

impl HttpHeader {
    /// A header with the given name and value.
    pub fn new(name: String, value: String) -> (header: HttpHeader)
        ensures
            header.name == name,
            header.value == value,
    {
        HttpHeader { name, value }
    }

    /// The header's line on the wire.
    pub fn to_string(&self) -> (s: String)
        ensures
            s@ == header_line(self.name@, self.value@),
    {
        proof {
            reveal_strlit(": ");
            reveal_strlit("\r\n");
        }
        let mut s = self.name.clone();
        s.append(": ");
        s.append(self.value.as_str());
        s.append("\r\n");
        assert(s@ =~= header_line(self.name@, self.value@));
        s
    }
}

/// The mathematical value of a header collection: a map from each name to
/// its value, and the order in which the names are written out.
pub struct HeadersView {
    pub map: Map<Seq<char>, Seq<char>>,
    pub order: Seq<Seq<char>>,
}

impl HeadersView {
    /// The collection without headers.
    pub open spec fn empty() -> HeadersView {
        HeadersView { map: Map::empty(), order: Seq::empty() }
    }

    /// The names in `order` are exactly the keys of `map`, each once.
    pub open spec fn wf(self) -> bool {
        &&& self.order.no_duplicates()
        &&& forall|name: Seq<char>| self.map.contains_key(name) <==> self.order.contains(name)
    }

    /// The collection after `name` was given `value`: the value takes the
    /// place of an earlier one for the very same name, and a new name goes
    /// to the end of the order.
    pub open spec fn insert(self, name: Seq<char>, value: Seq<char>) -> HeadersView {
        HeadersView {
            map: self.map.insert(name, value),
            order: if self.map.contains_key(name) {
                self.order
            } else {
                self.order.push(name)
            },
        }
    }

    /// The collection after each header in `headers` was inserted in turn.
    pub open spec fn insert_all(self, headers: Seq<(Seq<char>, Seq<char>)>) -> HeadersView
        decreases headers.len(),
    {
        if headers.len() == 0 {
            self
        } else {
            self.insert_all(headers.drop_last()).insert(headers.last().0, headers.last().1)
        }
    }

    /// The value held for exactly `name`.
    pub open spec fn get(self, name: Seq<char>) -> Option<Seq<char>> {
        if self.map.contains_key(name) {
            Some(self.map[name])
        } else {
            None
        }
    }

    /// The header lines on the wire, in order.
    pub open spec fn block(self) -> Seq<char> {
        header_block(self.map, self.order)
    }

    /// Inserting keeps a collection well formed.
    pub proof fn lemma_insert_wf(self, name: Seq<char>, value: Seq<char>)
        requires
            self.wf(),
        ensures
            self.insert(name, value).wf(),
    {
        let after = self.insert(name, value);
        if !self.map.contains_key(name) {
            assert forall|k: Seq<char>| after.map.contains_key(k) <==> after.order.contains(
                k,
            ) by {
                if after.order.contains(k) {
                    let i = choose|i: int| 0 <= i < after.order.len() && after.order[i] == k;
                    if i < self.order.len() {
                        assert(self.order[i] == k);
                    }
                }
                if self.order.contains(k) {
                    let i = choose|i: int| 0 <= i < self.order.len() && self.order[i] == k;
                    assert(after.order[i] == k);
                }
                assert(after.order[self.order.len() as int] == name);
            }
            assert forall|a: int, b: int|
                0 <= a < after.order.len() && 0 <= b < after.order.len() && a
                    != b implies after.order[a] != after.order[b] by {
                if a < self.order.len() {
                    assert(self.order[a] == after.order[a]);
                    assert(self.order.contains(after.order[a]));
                }
                if b < self.order.len() {
                    assert(self.order[b] == after.order[b]);
                    assert(self.order.contains(after.order[b]));
                }
            }
        }
    }

    /// The last value written for a name is the one that is read, and
    /// writing it leaves every other name as it was.
    pub proof fn lemma_last_write_wins(
        self,
        name: Seq<char>,
        first: Seq<char>,
        second: Seq<char>,
        other: Seq<char>,
    )
        ensures
            self.insert(name, first).insert(name, second).get(name) == Some(second),
            self.insert(name, first).insert(name, second) == self.insert(name, second),
            other != name ==> self.insert(name, second).get(other) == self.get(other),
    {
        assert(self.map.insert(name, first).insert(name, second) =~= self.map.insert(
            name,
            second,
        ));
    }
}

/// The names of `headers`, in order.
spec fn names_of(headers: Seq<HttpHeader>) -> Seq<Seq<char>> {
    headers.map_values(|header: HttpHeader| header.name@)
}

/// The names and values of `headers`, in order.
pub open spec fn pairs_of(headers: Seq<HttpHeader>) -> Seq<(Seq<char>, Seq<char>)> {
    headers.map_values(|header: HttpHeader| (header.name@, header.value@))
}

/// An index at which `name` stands in `order`.
spec fn position(order: Seq<Seq<char>>, name: Seq<char>) -> int {
    choose|i: int| 0 <= i < order.len() && order[i] == name
}

proof fn lemma_position(order: Seq<Seq<char>>, name: Seq<char>, i: int)
    requires
        order.no_duplicates(),
        0 <= i < order.len(),
        order[i] == name,
    ensures
        position(order, name) == i,
{
}

/// A collection of headers with one value for each name. Names are compared
/// exactly, letter case included.
#[derive(Debug)]
pub struct HttpHeaderCollection {
    headers: Vec<HttpHeader>,
}

impl View for HttpHeaderCollection {
    type V = HeadersView;

    closed spec fn view(&self) -> HeadersView {
        let order = names_of(self.headers@);
        HeadersView {
            map: Map::new(
                |name: Seq<char>| order.contains(name),
                |name: Seq<char>| self.headers@[position(order, name)].value@,
            ),
            order,
        }
    }
}

impl HttpHeaderCollection {
    #[verifier::type_invariant]
    spec fn distinct_names(self) -> bool {
        names_of(self.headers@).no_duplicates()
    }

    /// The collection without headers.
    pub fn new() -> (collection: HttpHeaderCollection)
        ensures
            collection@ == HeadersView::empty(),
            collection@.wf(),
    {
        let collection = HttpHeaderCollection { headers: Vec::new() };
        assert(collection@.map =~= Map::<Seq<char>, Seq<char>>::empty());
        assert(collection@.order =~= Seq::<Seq<char>>::empty());
        collection
    }

    /// Gives `key` the value `value`. A value that was held for exactly the
    /// same name is replaced.
    pub fn add_header(&mut self, key: String, value: String)
        ensures
            final(self)@ == old(self)@.insert(key@, value@),
            final(self)@.wf(),
    {
        proof {
            use_type_invariant(&*self);
        }
        let ghost before = self.headers@;
        let ghost before_view = self@;
        let mut headers: Vec<HttpHeader> = Vec::new();
        std::mem::swap(&mut headers, &mut self.headers);
        let header = HttpHeader::new(key, value);
        let mut i: usize = 0;
        while i < headers.len() && !(headers[i].name == header.name)
            invariant
                headers@ == before,
                i <= headers.len(),
                forall|j: int| 0 <= j < i ==> #[trigger] headers@[j].name@ != header.name@,
            decreases headers.len() - i,
        {
            i += 1;
        }
        let found = i < headers.len();
        let ghost name = header.name@;
        let ghost text = header.value@;
        if found {
            headers.set(i, header);
        } else {
            headers.push(header);
        }
        proof {
            let order = names_of(before);
            let after = names_of(headers@);
            let goal = before_view.insert(name, text);
            if found {
                assert(after =~= order);
                assert(order[i as int] == name);
                assert(order.contains(name));
            } else {
                assert(after =~= order.push(name));
                assert(!order.contains(name)) by {
                    if order.contains(name) {
                        let j = choose|j: int| 0 <= j < order.len() && order[j] == name;
                        assert(before[j].name@ == name);
                    }
                }
                assert forall|a: int, b: int|
                    0 <= a < after.len() && 0 <= b < after.len() && a != b implies after[a]
                    != after[b] by {
                    if a < order.len() {
                        assert(order[a] == after[a]);
                    }
                    if b < order.len() {
                        assert(order[b] == after[b]);
                    }
                }
            }
            assert(after.no_duplicates());
            let made = HeadersView {
                map: Map::new(
                    |k: Seq<char>| after.contains(k),
                    |k: Seq<char>| headers@[position(after, k)].value@,
                ),
                order: after,
            };
            assert forall|k: Seq<char>| made.map.contains_key(k) == goal.map.contains_key(k) by {
                if after.contains(k) {
                    let j = choose|j: int| 0 <= j < after.len() && after[j] == k;
                    if j < order.len() && k != name {
                        assert(order[j] == k);
                    }
                }
                if order.contains(k) {
                    let j = choose|j: int| 0 <= j < order.len() && order[j] == k;
                    assert(after[j] == k);
                }
                if k == name {
                    if found {
                        assert(after[i as int] == name);
                    } else {
                        assert(after[order.len() as int] == name);
                    }
                }
            }
            assert forall|k: Seq<char>| made.map.contains_key(k) implies made.map[k]
                == goal.map[k] by {
                let j = position(after, k);
                if k == name {
                    if found {
                        lemma_position(after, k, i as int);
                    } else {
                        lemma_position(after, k, order.len() as int);
                    }
                } else {
                    assert(j < order.len());
                    assert(order[j] == k);
                    lemma_position(order, k, j);
                }
            }
            assert(made.map =~= goal.map);
            assert(made == goal);
            lemma_wf_of(headers@);
        }
        self.headers = headers;
    }

    /// The value held for exactly `key`, if there is one.
    pub fn get_value(&self, key: &String) -> (value: Option<String>)
        ensures
            match self@.get(key@) {
                Some(text) => value matches Some(v) && v@ == text,
                None => value is None,
            },
            self@.wf(),
    {
        proof {
            use_type_invariant(self);
            lemma_wf_of(self.headers@);
        }
        let ghost order = names_of(self.headers@);
        let mut i: usize = 0;
        while i < self.headers.len()
            invariant
                i <= self.headers.len(),
                order == names_of(self.headers@),
                order.no_duplicates(),
                forall|j: int| 0 <= j < i ==> #[trigger] order[j] != key@,
            decreases self.headers.len() - i,
        {
            if self.headers[i].name == *key {
                proof {
                    assert(order[i as int] == key@);
                    lemma_position(order, key@, i as int);
                }
                return Some(self.headers[i].value.clone());
            }
            i += 1;
        }
        proof {
            if order.contains(key@) {
                let j = choose|j: int| 0 <= j < order.len() && order[j] == key@;
                assert(false);
            }
        }
        None
    }

    /// The collection that results from inserting the headers of `input` in
    /// turn: of two headers with the same name the later one stays.
    pub fn from_vector(input: Vec<HttpHeader>) -> (collection: HttpHeaderCollection)
        ensures
            collection@ == HeadersView::empty().insert_all(pairs_of(input@)),
            collection@.wf(),
    {
        let mut collection = HttpHeaderCollection::new();
        let mut i: usize = 0;
        while i < input.len()
            invariant
                i <= input.len(),
                collection@ == HeadersView::empty().insert_all(pairs_of(input@).take(i as int)),
                collection@.wf(),
            decreases input.len() - i,
        {
            proof {
                let pairs = pairs_of(input@);
                assert(pairs.take(i + 1).drop_last() =~= pairs.take(i as int));
                assert(pairs.take(i + 1).last() == (input@[i as int].name@, input@[i as int].value@));
            }
            collection.add_header(input[i].name.clone(), input[i].value.clone());
            i += 1;
        }
        proof {
            assert(pairs_of(input@).take(i as int) =~= pairs_of(input@));
        }
        collection
    }

    /// The number of headers.
    pub fn len(&self) -> (n: usize)
        ensures
            n == self@.order.len(),
    {
        self.headers.len()
    }

    /// The header lines on the wire, in order.
    pub fn to_string(&self) -> (s: String)
        ensures
            s@ == self@.block(),
            self@.wf(),
    {
        proof {
            use_type_invariant(self);
            lemma_wf_of(self.headers@);
        }
        let ghost order = names_of(self.headers@);
        let ghost map = self@.map;
        let mut s = String::new();
        let mut i: usize = 0;
        while i < self.headers.len()
            invariant
                i <= self.headers.len(),
                order == names_of(self.headers@),
                order.no_duplicates(),
                map == self@.map,
                s@ == header_block(map, order.take(i as int)),
            decreases self.headers.len() - i,
        {
            let line = self.headers[i].to_string();
            proof {
                assert(order.take(i + 1).drop_last() =~= order.take(i as int));
                assert(order.take(i + 1).last() == order[i as int]);
                lemma_position(order, order[i as int], i as int);
                assert(map[order[i as int]] == self.headers@[i as int].value@);
            }
            s.append(line.as_str());
            i += 1;
        }
        proof {
            assert(order.take(i as int) =~= order);
        }
        s
    }
}

proof fn lemma_wf_of(headers: Seq<HttpHeader>)
    requires
        names_of(headers).no_duplicates(),
    ensures
        (HeadersView {
            map: Map::new(
                |name: Seq<char>| names_of(headers).contains(name),
                |name: Seq<char>| headers[position(names_of(headers), name)].value@,
            ),
            order: names_of(headers),
        }).wf(),
{
}

} // verus!
