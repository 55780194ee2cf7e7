use vstd::prelude::*;
use vstd::string::StringExecFns;

verus! {

/// A complete response: status code, headers as name/value pairs with
/// distinct names, and a text body. Insertion order of headers carries no
/// meaning; presence and value do.
pub struct Response {
    pub status: u16,
    pub headers: Vec<(String, String)>,
    pub body: String,
}

/// First-match lookup of a header value among name/value pairs. Under the
/// well-formedness condition below the names are distinct, so the first
/// match is the only one.
pub open spec fn lookup(hs: Seq<(String, String)>, name: Seq<char>) -> Option<Seq<char>>
    decreases hs.len(),
{
    if hs.len() == 0 {
        None
    } else if hs[0].0@ == name {
        Some(hs[0].1@)
    } else {
        lookup(hs.drop_first(), name)
    }
}

proof fn lemma_lookup_push(hs: Seq<(String, String)>, nm: String, v: String, n: Seq<char>)
    ensures
        lookup(hs.push((nm, v)), n) == if lookup(hs, n) is Some {
            lookup(hs, n)
        } else if nm@ == n {
            Some(v@)
        } else {
            None::<Seq<char>>
        },
    decreases hs.len(),
{
    if hs.len() == 0 {
        assert(hs.push((nm, v)).drop_first() =~= Seq::<(String, String)>::empty());
    } else {
        assert(hs.push((nm, v)).drop_first() =~= hs.drop_first().push((nm, v)));
        lemma_lookup_push(hs.drop_first(), nm, v, n);
    }
}

proof fn lemma_lookup_update(hs: Seq<(String, String)>, i: int, nm: String, v: String, n: Seq<char>)
    requires
        0 <= i < hs.len(),
        hs[i].0@ == nm@,
        forall|j: int| 0 <= j < i ==> hs[j].0@ != nm@,
    ensures
        lookup(hs.update(i, (nm, v)), n) == if n == nm@ {
            Some(v@)
        } else {
            lookup(hs, n)
        },
    decreases hs.len(),
{
    if i == 0 {
        assert(hs.update(0, (nm, v)).drop_first() =~= hs.drop_first());
    } else {
        assert(hs.update(i, (nm, v)).drop_first() =~= hs.drop_first().update(i - 1, (nm, v)));
        lemma_lookup_update(hs.drop_first(), i - 1, nm, v, n);
    }
}

/// Where no pair carries the name, lookup finds nothing.
proof fn lemma_lookup_none_of_absent(hs: Seq<(String, String)>, n: Seq<char>)
    requires
        forall|j: int| 0 <= j < hs.len() ==> hs[j].0@ != n,
    ensures
        lookup(hs, n) is None,
    decreases hs.len(),
{
    if hs.len() > 0 {
        lemma_lookup_none_of_absent(hs.drop_first(), n);
    }
}

impl Response {
    /// Header names are distinct.
    pub open spec fn wf(self) -> bool {
        forall|i: int, j: int|
            0 <= i < j < self.headers@.len() ==> self.headers@[i].0@ != self.headers@[j].0@
    }

    /// The value of the header with the given name, if present.
    pub open spec fn header(self, name: Seq<char>) -> Option<Seq<char>> {
        lookup(self.headers@, name)
    }

    /// Build a response whose only header is the given content type.
    pub fn with_body(status: u16, content_type: &str, body: String) -> (r: Response)
        ensures
            r.wf(),
            r.status == status,
            r.body@ == body@,
            r.headers@.len() == 1,
            r.header("content-type"@) == Some(content_type@),
            forall|n: Seq<char>| n != "content-type"@ ==> r.header(n) is None,
    {
        let nm = String::from_str("content-type");
        let v = String::from_str(content_type);
        let mut headers: Vec<(String, String)> = Vec::new();
        headers.push((nm, v));
        let r = Response { status, headers, body };
        proof {
            assert(lookup(r.headers@, "content-type"@) == Some(content_type@));
            assert forall|n: Seq<char>| n != "content-type"@ implies r.header(n) is None by {
                lemma_lookup_none_of_absent(r.headers@, n);
            }
        }
        r
    }

    /// Build a response with the given status and an empty header list.
    pub fn bare(status: u16, body: String) -> (r: Response)
        ensures
            r.wf(),
            r.status == status,
            r.body@ == body@,
            r.headers@.len() == 0,
            forall|n: Seq<char>| r.header(n) is None,
    {
        let r = Response { status, headers: Vec::new(), body };
        proof {
            assert forall|n: Seq<char>| r.header(n) is None by {
                lemma_lookup_none_of_absent(r.headers@, n);
            }
        }
        r
    }

    /// Set a header to the given value: replace it where the name is already
    /// present, append it otherwise. Every other header, the status and the
    /// body are unchanged.
    pub fn set_header(&mut self, name: &str, value: &str)
        requires
            old(self).wf(),
        ensures
            final(self).wf(),
            final(self).status == old(self).status,
            final(self).body@ == old(self).body@,
            final(self).header(name@) == Some(value@),
            forall|n: Seq<char>| n != name@ ==> final(self).header(n) == old(self).header(n),
    {
        let nm = String::from_str(name);
        let v = String::from_str(value);
        let mut i: usize = 0;
        while i < self.headers.len()
            invariant
                *self == *old(self),
                old(self).wf(),
                nm@ == name@,
                v@ == value@,
                i <= self.headers@.len(),
                forall|j: int| 0 <= j < i ==> self.headers@[j].0@ != name@,
            decreases self.headers@.len() - i,
        {
            if self.headers[i].0 == nm {
                let ghost hs = self.headers@;
                self.headers.set(i, (nm, v));
                proof {
                    assert(forall|k: int|
                        0 <= k < self.headers@.len() ==> self.headers@[k].0@ == hs[k].0@);
                    lemma_lookup_update(hs, i as int, nm, v, name@);
                    assert forall|n: Seq<char>| n != name@ implies lookup(self.headers@, n)
                        == lookup(hs, n) by {
                        lemma_lookup_update(hs, i as int, nm, v, n);
                    }
                }
                return ;
            }
            i += 1;
        }
        let ghost hs = self.headers@;
        self.headers.push((nm, v));
        proof {
            lemma_lookup_none_of_absent(hs, name@);
            lemma_lookup_push(hs, nm, v, name@);
            assert forall|n: Seq<char>| n != name@ implies lookup(self.headers@, n) == lookup(
                hs,
                n,
            ) by {
                lemma_lookup_push(hs, nm, v, n);
            }
        }
    }
}

} // verus!
