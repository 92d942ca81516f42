use vstd::prelude::*;
use crate::protocol::{get_header, post_header, delete_header, RequestKind, spec_request_kind};
use crate::request::RQM;

verus! {

/// The requests of `reqs` whose header is `header`, in their order.
pub open spec fn requests_with_header(reqs: Seq<RQM>, header: Seq<char>) -> Seq<RQM>
    decreases reqs.len(),
{
    if reqs.len() == 0 {
        Seq::empty()
    } else {
        let rest = requests_with_header(reqs.drop_last(), header);
        if reqs.last().header@ == header {
            rest.push(reqs.last())
        } else {
            rest
        }
    }
}

/// The sum of the sizes of the requests of `reqs` whose header is `header`.
pub open spec fn size_with_header(reqs: Seq<RQM>, header: Seq<char>) -> int
    decreases reqs.len(),
{
    if reqs.len() == 0 {
        0
    } else {
        let rest = size_with_header(reqs.drop_last(), header);
        if reqs.last().header@ == header {
            rest + reqs.last().size
        } else {
            rest
        }
    }
}

/// Every running total of the sizes of the matching requests, taken in
/// order, fits in an `i64`.
pub open spec fn running_sizes_fit(reqs: Seq<RQM>, header: Seq<char>) -> bool {
    forall|k: int|
        0 <= k <= reqs.len() ==> i64::MIN <= #[trigger] size_with_header(reqs.take(k), header)
            <= i64::MAX
}

proof fn lemma_take_step(reqs: Seq<RQM>, i: int)
    requires
        0 <= i < reqs.len(),
    ensures
        reqs.take(i + 1).drop_last() == reqs.take(i),
        reqs.take(i + 1).last() == reqs[i],
{
    assert(reqs.take(i + 1).drop_last() =~= reqs.take(i));
}

/// Returns the requests with the given header, in their order
/// (one pass over the requests).
pub fn sort_requests_with_header(requests: &Vec<RQM>, header: &String) -> (sorted: Vec<RQM>)
    ensures
        sorted@ == requests_with_header(requests@, header@),
{
    let mut sorted: Vec<RQM> = Vec::new();
    let n = requests.len();
    for i in 0..n
        invariant
            n == requests@.len(),
            sorted@ == requests_with_header(requests@.take(i as int), header@),
    {
        proof {
            lemma_take_step(requests@, i as int);
        }
        let quest = &requests[i];
        if quest.header == *header {
            sorted.push(quest.duplicate());
        }
    }
    assert(requests@.take(n as int) =~= requests@);
    sorted
}

/// Like [`sort_requests_with_header`], and also returns the combined size
/// of the matching requests (as the `u64` with the same bits as the `i64`
/// total).
pub fn sort_and_size_requests_with_header(requests: &Vec<RQM>, header: &String) -> (res: (
    u64,
    Vec<RQM>,
))
    requires
        running_sizes_fit(requests@, header@),
    ensures
        res.1@ == requests_with_header(requests@, header@),
        res.0 == size_with_header(requests@, header@) as u64,
{
    let mut sorted: Vec<RQM> = Vec::new();
    let mut size: i64 = 0;
    let n = requests.len();
    assert(requests@.take(0) =~= Seq::<RQM>::empty());
    for i in 0..n
        invariant
            n == requests@.len(),
            running_sizes_fit(requests@, header@),
            sorted@ == requests_with_header(requests@.take(i as int), header@),
            size == size_with_header(requests@.take(i as int), header@),
    {
        proof {
            lemma_take_step(requests@, i as int);
            assert(i64::MIN <= size_with_header(requests@.take(i + 1), header@) <= i64::MAX);
        }
        let quest = &requests[i];
        if quest.header == *header {
            sorted.push(quest.duplicate());
            size = size + quest.size;
        }
    }
    assert(requests@.take(n as int) =~= requests@);
    (size as u64, sorted)
}

/// Splits the requests into downloads, uploads and deletions, each in
/// their order; requests with any other header are left out.
pub fn sort_requests(requests: &Vec<RQM>) -> (res: (Vec<RQM>, Vec<RQM>, Vec<RQM>))
    ensures
        res.0@ == requests_with_header(requests@, get_header()),
        res.1@ == requests_with_header(requests@, post_header()),
        res.2@ == requests_with_header(requests@, delete_header()),
{
    let mut gets: Vec<RQM> = Vec::new();
    let mut posts: Vec<RQM> = Vec::new();
    let mut deletes: Vec<RQM> = Vec::new();
    let n = requests.len();
    for i in 0..n
        invariant
            n == requests@.len(),
            gets@ == requests_with_header(requests@.take(i as int), get_header()),
            posts@ == requests_with_header(requests@.take(i as int), post_header()),
            deletes@ == requests_with_header(requests@.take(i as int), delete_header()),
    {
        proof {
            lemma_take_step(requests@, i as int);
        }
        let quest = &requests[i];
        match crate::protocol::request_kind(quest.header.as_str()) {
            crate::protocol::RequestKind::Get => {
                gets.push(quest.duplicate());
            },
            crate::protocol::RequestKind::Post => {
                posts.push(quest.duplicate());
            },
            crate::protocol::RequestKind::Delete => {
                deletes.push(quest.duplicate());
            },
            crate::protocol::RequestKind::Unknown => {},
        }
    }
    assert(requests@.take(n as int) =~= requests@);
    (gets, posts, deletes)
}

/// The sum of the sizes of a sequence of requests.
pub open spec fn sizes_sum(reqs: Seq<RQM>) -> int
    decreases reqs.len(),
{
    if reqs.len() == 0 {
        0
    } else {
        sizes_sum(reqs.drop_last()) + reqs.last().size
    }
}

/// Size law: the combined size reported for a header is the sum of the
/// sizes of the requests sorted out for that header.
pub proof fn law_size_of_sorted(reqs: Seq<RQM>, header: Seq<char>)
    ensures
        size_with_header(reqs, header) == sizes_sum(requests_with_header(reqs, header)),
    decreases reqs.len(),
{
    if reqs.len() > 0 {
        law_size_of_sorted(reqs.drop_last(), header);
        let rest = requests_with_header(reqs.drop_last(), header);
        if reqs.last().header@ == header {
            assert(rest.push(reqs.last()).drop_last() =~= rest);
        }
    }
}

/// The requests whose header is none of the three known ones.
pub open spec fn unknown_requests(reqs: Seq<RQM>) -> Seq<RQM>
    decreases reqs.len(),
{
    if reqs.len() == 0 {
        Seq::empty()
    } else {
        let rest = unknown_requests(reqs.drop_last());
        if spec_request_kind(reqs.last().header@) == RequestKind::Unknown {
            rest.push(reqs.last())
        } else {
            rest
        }
    }
}

/// Sorting law: every request lands in exactly one of the three lists of
/// its header or among the unknown ones, so their lengths add up to the
/// number of requests; and each list holds only requests of its header.
pub proof fn law_sort_partitions(reqs: Seq<RQM>)
    ensures
        requests_with_header(reqs, get_header()).len() + requests_with_header(
            reqs,
            post_header(),
        ).len() + requests_with_header(reqs, delete_header()).len() + unknown_requests(reqs).len()
            == reqs.len(),
        forall|h: Seq<char>, i: int|
            0 <= i < requests_with_header(reqs, h).len() ==> (#[trigger] requests_with_header(
                reqs,
                h,
            )[i]).header@ == h,
    decreases reqs.len(),
{
    if reqs.len() > 0 {
        law_sort_partitions(reqs.drop_last());
        assert forall|h: Seq<char>, i: int|
            0 <= i < requests_with_header(reqs, h).len() implies (#[trigger] requests_with_header(
            reqs,
            h,
        )[i]).header@ == h by {
            let rest = requests_with_header(reqs.drop_last(), h);
            if i < rest.len() {
                assert(requests_with_header(reqs, h)[i] == rest[i]);
            }
        }
    }
}

} // verus!
