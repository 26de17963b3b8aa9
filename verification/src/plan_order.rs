//! The order of a copy plan: every directory is created before anything is placed in it.
use vstd::prelude::*;

use crate::directory::{
    optional, optional_scan, rejoined_path, CopyPlanner, EntryOutcome, LinkView,
    OperationView, PhaseView, PlannerView, ScanView, ValidatedDestinationDirectory, ValidatedSourceDirectory,
    SymlinkBehaviour,
};
use crate::laws::lemma_rejoined_components;
use crate::path::{
    has_no_separator, is_normal_piece, lemma_join_extends_base, lemma_normal_pieces_of_normal,
    lemma_split_scan_without_separator, normal_pieces, path_components, path_join, pieces, paths_equal,
    path_starts_with,
};
use crate::requests::{listing_view, EntryView, FsResponse, IoFailure};

verus! {

/// Whether a listed name is a single normal path component.
pub open spec fn normal_name(name: Seq<char>) -> bool {
    is_normal_piece(name) && has_no_separator(name)
}

/// Whether every listed entry has a normal name.
pub open spec fn names_are_normal(entries: Seq<Result<EntryView, IoFailure>>) -> bool {
    forall|i: int| 0 <= i < entries.len() ==> (#[trigger] entries[i] matches Ok(e) ==> normal_name(e.file_name))
}

/// Whether `queue` creates a directory whose path has the components `c`.
pub open spec fn creates_directory(queue: Seq<OperationView>, c: Seq<Seq<char>>) -> bool {
    exists|j: int|
        #![trigger queue[j]]
        0 <= j < queue.len() && queue[j] is CreateDirectory && path_components(queue[j].target_path()) == c
}

/// Whether the operation at `i` lies under the destination root `root` (given by its
/// components), and, when it lies deeper than directly in it, comes after the creation of
/// its parent directory.
pub open spec fn placed_after_parent(queue: Seq<OperationView>, i: int, root: Seq<Seq<char>>) -> bool {
    let c = path_components(queue[i].target_path());
    &&& root.is_prefix_of(c)
    &&& c.len() >= root.len() + 2 ==> creates_directory(queue.take(i), c.drop_last())
}

/// Whether every operation of `queue` lies under `root` and comes after the creation of its
/// parent directory, unless it lies directly in `root`.
pub open spec fn parents_come_first(queue: Seq<OperationView>, root: Seq<Seq<char>>) -> bool {
    forall|i: int| 0 <= i < queue.len() ==> #[trigger] placed_after_parent(queue, i, root)
}

/// The components of `unfollowed` below the source root `src`.
pub open spec fn below(src: Seq<char>, unfollowed: Seq<char>) -> Seq<Seq<char>> {
    path_components(unfollowed).skip(path_components(src).len() as int)
}

/// Whether the directory `unfollowed` under the source root has its counterpart under the
/// destination root created by `queue` (or is the source root itself).
pub open spec fn counterpart_created(src: Seq<char>, dst: Seq<char>, unfollowed: Seq<char>, queue: Seq<OperationView>) -> bool {
    &&& path_components(src).is_prefix_of(path_components(unfollowed))
    &&& below(src, unfollowed).len() == 0 || creates_directory(queue, path_components(dst) + below(src, unfollowed))
}

/// Whether a path `destination` under the destination root stands for an entry directly in
/// the scanned directory `scan`.
pub open spec fn entry_destination(src: Seq<char>, dst: Seq<char>, scan: ScanView, destination: Seq<char>) -> bool {
    &&& path_components(destination).len() == path_components(dst).len() + below(src, scan.unfollowed).len() + 1
    &&& path_components(destination).drop_last() == path_components(dst) + below(src, scan.unfollowed)
}

/// Whether an entry path `unfollowed` lies directly in the scanned directory `scan`, and
/// `destination` is its counterpart under the destination root.
pub open spec fn entry_counterpart(src: Seq<char>, dst: Seq<char>, scan: ScanView, unfollowed: Seq<char>, destination: Seq<char>) -> bool {
    &&& path_components(unfollowed).drop_last() == path_components(scan.unfollowed)
    &&& path_components(unfollowed).len() == path_components(scan.unfollowed).len() + 1
    &&& path_components(destination) == path_components(dst) + below(src, unfollowed)
}

/// Whether a symbolic link being resolved stands for an entry of `scan`.
pub open spec fn link_in_order(src: Seq<char>, dst: Seq<char>, scan: ScanView, link: LinkView) -> bool {
    match link {
        LinkView::AwaitTarget { destination, unfollowed, .. } => entry_counterpart(src, dst, scan, unfollowed, destination),
        LinkView::AwaitTargetExistence { destination, unfollowed, .. } => entry_counterpart(src, dst, scan, unfollowed, destination),
        LinkView::AwaitBrokenLinkSize { destination, .. } => entry_destination(src, dst, scan, destination),
        LinkView::AwaitTargetMetadata { destination, unfollowed, .. } => entry_counterpart(src, dst, scan, unfollowed, destination),
    }
}

/// Whether a plan of a copy of `src` to `dst` keeps parents first: its queue does, every
/// directory waiting to be read has its counterpart created, and so has the one being read.
pub open spec fn plan_in_order(src: Seq<char>, dst: Seq<char>, v: PlannerView) -> bool {
    &&& parents_come_first(v.queue, path_components(dst))
    &&& forall|i: int| 0 <= i < v.scans.len() ==> counterpart_created(src, dst, #[trigger] v.scans[i].unfollowed, v.queue)
    &&& match v.phase {
        PhaseView::AwaitListing { scan } => counterpart_created(src, dst, scan.unfollowed, v.queue),
        PhaseView::AwaitLink { scan, remaining, link } => {
            &&& counterpart_created(src, dst, scan.unfollowed, v.queue)
            &&& names_are_normal(remaining)
            &&& link_in_order(src, dst, scan, link)
        },
        _ => true,
    }
}

/// A path without components is the empty path's; so one with components is not empty.
proof fn lemma_components_need_characters(s: Seq<char>)
    requires
        path_components(s).len() > 0,
    ensures
        s.len() > 0,
{
    if s.len() == 0 {
        assert(pieces(s) =~= seq![Seq::<char>::empty()]);
        assert(pieces(s).drop_last() =~= Seq::<Seq<char>>::empty());
        assert(normal_pieces(Seq::<Seq<char>>::empty()) =~= Seq::<Seq<char>>::empty());
        assert(!is_normal_piece(pieces(s).last()));
        assert(normal_pieces(pieces(s)) =~= Seq::<Seq<char>>::empty());
        assert(path_components(s) =~= Seq::<Seq<char>>::empty());
    }
}

/// An entry named `name` in the directory `u` has the components of `u` and then `name`.
proof fn lemma_entry_components(u: Seq<char>, name: Seq<char>)
    requires
        path_components(u).len() > 0,
        normal_name(name),
    ensures
        path_components(path_join(u, name)) == path_components(u).push(name),
{
    lemma_components_need_characters(u);
    lemma_split_scan_without_separator(name);
    assert(pieces(name) =~= seq![name]);
    assert(name.len() > 0);
    assert(!crate::path::path_is_absolute(name));
    lemma_normal_pieces_of_normal(seq![name]);
    lemma_join_extends_base(u, name);
    assert(path_components(u) + seq![name] =~= path_components(u).push(name));
}

/// Adding operations keeps the directories `queue` creates.
proof fn lemma_creates_more(queue: Seq<OperationView>, more: Seq<OperationView>, c: Seq<Seq<char>>)
    requires
        creates_directory(queue, c),
    ensures
        creates_directory(queue + more, c),
{
    let j = choose|j: int|
        #![trigger queue[j]]
        0 <= j < queue.len() && queue[j] is CreateDirectory && path_components(queue[j].target_path()) == c;
    assert((queue + more)[j] == queue[j]);
}

/// Adding an operation placed after its parent keeps parents first.
proof fn lemma_push_in_order(queue: Seq<OperationView>, op: OperationView, root: Seq<Seq<char>>)
    requires
        parents_come_first(queue, root),
        placed_after_parent(queue.push(op), queue.len() as int, root),
    ensures
        parents_come_first(queue.push(op), root),
{
    let q2 = queue.push(op);
    assert forall|i: int| 0 <= i < q2.len() implies #[trigger] placed_after_parent(q2, i, root) by {
        if i < queue.len() {
            assert(q2[i] == queue[i]);
            assert(q2.take(i) =~= queue.take(i));
            assert(placed_after_parent(queue, i, root));
        }
    }
}

/// Adding operations keeps every directory's counterpart created.
proof fn lemma_scans_stay_ready(src: Seq<char>, dst: Seq<char>, scans: Seq<ScanView>, queue: Seq<OperationView>, more: Seq<OperationView>)
    requires
        forall|i: int| 0 <= i < scans.len() ==> counterpart_created(src, dst, #[trigger] scans[i].unfollowed, queue),
    ensures
        forall|i: int| 0 <= i < scans.len() ==> counterpart_created(src, dst, #[trigger] scans[i].unfollowed, queue + more),
{
    assert forall|i: int| 0 <= i < scans.len() implies counterpart_created(src, dst, #[trigger] scans[i].unfollowed, queue + more) by {
        if below(src, scans[i].unfollowed).len() > 0 {
            lemma_creates_more(queue, more, path_components(dst) + below(src, scans[i].unfollowed));
        }
    }
}

/// An operation at `destination` for an entry of the scanned directory comes after its parent.
proof fn lemma_entry_op_in_order(
    src: Seq<char>,
    dst: Seq<char>,
    scan: ScanView,
    queue: Seq<OperationView>,
    op: OperationView,
)
    requires
        counterpart_created(src, dst, scan.unfollowed, queue),
        entry_destination(src, dst, scan, op.target_path()),
    ensures
        placed_after_parent(queue.push(op), queue.len() as int, path_components(dst)),
{
    let q2 = queue.push(op);
    let c = path_components(op.target_path());
    let root = path_components(dst);
    assert(q2[queue.len() as int] == op);
    assert(q2.take(queue.len() as int) =~= queue);
    assert(root.is_prefix_of(c)) by {
        assert(c.subrange(0, root.len() as int) =~= c.drop_last().subrange(0, root.len() as int));
        assert(c.drop_last().subrange(0, root.len() as int) =~= root);
    }
    if c.len() >= root.len() + 2 {
        assert(below(src, scan.unfollowed).len() > 0);
    }
}

/// The counterpart of an entry of a scanned directory lies directly in the scanned
/// directory's counterpart.
proof fn lemma_entry_counterpart_destination(src: Seq<char>, dst: Seq<char>, scan: ScanView, unfollowed: Seq<char>, destination: Seq<char>)
    requires
        path_components(src).is_prefix_of(path_components(scan.unfollowed)),
        entry_counterpart(src, dst, scan, unfollowed, destination),
    ensures
        entry_destination(src, dst, scan, destination),
        path_components(src).is_prefix_of(path_components(unfollowed)),
        below(src, unfollowed).len() > 0,
{
    let k = path_components(src).len() as int;
    let cu = path_components(unfollowed);
    let cs = path_components(scan.unfollowed);
    assert(cu.subrange(0, k) =~= cs.subrange(0, k)) by {
        assert forall|i: int| 0 <= i < k implies cu.subrange(0, k)[i] == cs.subrange(0, k)[i] by {
            assert(cu[i] == cu.drop_last()[i]);
        }
    }
    assert(below(src, unfollowed).drop_last() =~= below(src, scan.unfollowed)) by {
        assert forall|i: int| 0 <= i < below(src, scan.unfollowed).len() implies below(src, unfollowed).drop_last()[i]
            == below(src, scan.unfollowed)[i] by {
            assert(cu[i + k] == cu.drop_last()[i + k]);
        }
    }
    let d = path_components(destination);
    assert(d.drop_last() =~= path_components(dst) + below(src, scan.unfollowed));
}

/// A listed entry with a normal name leads to operations placed after their parents, to
/// directories whose counterparts are created, and to links that stand for its entry.
proof fn lemma_entry_in_order(
    planner: CopyPlanner,
    queue: Seq<OperationView>,
    scans: Seq<ScanView>,
    scan: ScanView,
    entry: Result<EntryView, IoFailure>,
)
    requires
        path_components(planner.source_root()).len() > 0,
        parents_come_first(queue, path_components(planner.destination_root())),
        forall|i: int| 0 <= i < scans.len() ==> counterpart_created(
            planner.source_root(),
            planner.destination_root(),
            #[trigger] scans[i].unfollowed,
            queue,
        ),
        counterpart_created(planner.source_root(), planner.destination_root(), scan.unfollowed, queue),
        entry matches Ok(e) ==> normal_name(e.file_name),
    ensures
        match planner.entry_outcome(scan, entry) {
            EntryOutcome::Queue(op, next_scan) => {
                let q2 = queue + optional(op);
                let s2 = scans + optional_scan(next_scan);
                &&& parents_come_first(q2, path_components(planner.destination_root()))
                &&& forall|i: int| 0 <= i < s2.len() ==> counterpart_created(
                    planner.source_root(),
                    planner.destination_root(),
                    #[trigger] s2[i].unfollowed,
                    q2,
                )
                &&& counterpart_created(planner.source_root(), planner.destination_root(), scan.unfollowed, q2)
            },
            EntryOutcome::Resolve(link) => link_in_order(planner.source_root(), planner.destination_root(), scan, link),
            EntryOutcome::Fail(_) => true,
        },
{
    let src = planner.source_root();
    let dst = planner.destination_root();
    if let Ok(info) = entry {
        let u = path_join(scan.unfollowed, info.file_name);
        let k = path_components(src).len() as int;
        assert(path_components(scan.unfollowed).len() > 0) by {
            assert(path_components(src).len() <= path_components(scan.unfollowed).len());
        }
        lemma_entry_components(scan.unfollowed, info.file_name);
        assert(path_components(u).drop_last() =~= path_components(scan.unfollowed));
        assert(path_components(src).is_prefix_of(path_components(u))) by {
            assert(path_components(u).subrange(0, k) =~= path_components(scan.unfollowed).subrange(0, k));
        }
        assert(path_starts_with(u, src));
        assert(!paths_equal(src, u)) by {
            assert(path_components(u).len() > path_components(src).len());
        }
        lemma_rejoined_components(src, u, dst);
        match rejoined_path(src, u, dst) {
            Ok(destination) => {
                assert(entry_counterpart(src, dst, scan, u, destination));
                lemma_entry_counterpart_destination(src, dst, scan, u, destination);
                match planner.entry_outcome(scan, entry) {
                    EntryOutcome::Queue(op, next_scan) => {
                        if let Some(o) = op {
                            assert(o.target_path() == destination);
                            lemma_entry_op_in_order(src, dst, scan, queue, o);
                            lemma_push_in_order(queue, o, path_components(dst));
                            assert(queue + optional(op) =~= queue.push(o));
                            lemma_scans_stay_ready(src, dst, scans, queue, optional(op));
                            if below(src, scan.unfollowed).len() > 0 {
                                lemma_creates_more(queue, optional(op), path_components(dst) + below(src, scan.unfollowed));
                            }
                            let q2 = queue + optional(op);
                            let s2 = scans + optional_scan(next_scan);
                            if let Some(ns) = next_scan {
                                assert(ns.unfollowed == u);
                                assert(q2[queue.len() as int] == o);
                                assert(creates_directory(q2, path_components(dst) + below(src, u)));
                            }
                            assert forall|i: int| 0 <= i < s2.len() implies counterpart_created(
                                src,
                                dst,
                                #[trigger] s2[i].unfollowed,
                                q2,
                            ) by {
                                if i < scans.len() {
                                    assert(s2[i] == scans[i]);
                                }
                            }
                        } else {
                            assert(queue + optional(op) =~= queue);
                            assert(scans + optional_scan(next_scan) =~= scans);
                        }
                    },
                    _ => {},
                }
            },
            Err(_) => {},
        }
    }
}

/// Processing a listing keeps a plan in order.
proof fn lemma_drain_in_order(
    planner: CopyPlanner,
    queue: Seq<OperationView>,
    scans: Seq<ScanView>,
    scan: ScanView,
    remaining: Seq<Result<EntryView, IoFailure>>,
)
    requires
        path_components(planner.source_root()).len() > 0,
        parents_come_first(queue, path_components(planner.destination_root())),
        forall|i: int| 0 <= i < scans.len() ==> counterpart_created(
            planner.source_root(),
            planner.destination_root(),
            #[trigger] scans[i].unfollowed,
            queue,
        ),
        counterpart_created(planner.source_root(), planner.destination_root(), scan.unfollowed, queue),
        names_are_normal(remaining),
    ensures
        plan_in_order(planner.source_root(), planner.destination_root(), planner.drain(queue, scans, scan, remaining).0),
    decreases remaining.len(),
{
    let src = planner.source_root();
    let dst = planner.destination_root();
    if remaining.len() == 0 {
        if scans.len() > 0 {
            assert(counterpart_created(src, dst, scans[scans.len() - 1].unfollowed, queue));
            assert forall|i: int| 0 <= i < scans.drop_last().len() implies counterpart_created(
                src,
                dst,
                #[trigger] scans.drop_last()[i].unfollowed,
                queue,
            ) by {
                assert(scans.drop_last()[i] == scans[i]);
            }
        }
    } else {
        let rest = remaining.drop_last();
        assert(names_are_normal(rest)) by {
            assert forall|i: int| 0 <= i < rest.len() implies (#[trigger] rest[i] matches Ok(e) ==> normal_name(e.file_name)) by {
                assert(rest[i] == remaining[i]);
            }
        }
        assert(remaining[remaining.len() - 1] == remaining.last());
        lemma_entry_in_order(planner, queue, scans, scan, remaining.last());
        match planner.entry_outcome(scan, remaining.last()) {
            EntryOutcome::Queue(op, next_scan) => {
                lemma_drain_in_order(planner, queue + optional(op), scans + optional_scan(next_scan), scan, rest);
            },
            _ => {},
        }
    }
}

/// A copy plan creates every directory before anything is placed in it: when listings name
/// their entries by single normal components, every queued operation lies under the
/// destination root, and each one deeper than directly in it comes after the creation of
/// its parent directory. (The destination root itself is not created by the plan.) This
/// holds of the plan's first state, and every step keeps it.
pub proof fn law_plan_creates_parents_first(planner: CopyPlanner, response: FsResponse)
    requires
        path_components(planner.source_root()).len() > 0,
        plan_in_order(planner.source_root(), planner.destination_root(), planner.state()),
        response matches FsResponse::Listing(Ok(entries)) ==> names_are_normal(listing_view(entries@)),
    ensures
        plan_in_order(planner.source_root(), planner.destination_root(), planner.next(response).0),
        parents_come_first(planner.next(response).0.queue, path_components(planner.destination_root())),
{
    let v = planner.state();
    let src = planner.source_root();
    let dst = planner.destination_root();
    match (v.phase, response) {
        (PhaseView::AwaitBaseSymlinkSize, FsResponse::Metadata(Ok(meta))) => {
            let op = OperationView::CreateSymlink { link: dst, target: src, size: meta.len };
            let q2 = v.queue.push(op);
            assert(q2[v.queue.len() as int] == op);
            assert(path_components(dst).is_prefix_of(path_components(dst)));
            assert(q2.take(v.queue.len() as int) =~= v.queue);
            assert(placed_after_parent(q2, v.queue.len() as int, path_components(dst)));
            lemma_push_in_order(v.queue, op, path_components(dst));
            lemma_scans_stay_ready(src, dst, v.scans, v.queue, seq![op]);
            assert(v.queue + seq![op] =~= q2);
        },
        (PhaseView::AwaitListing { scan }, FsResponse::Listing(Ok(entries))) => {
            let l = listing_view(entries@);
            assert(names_are_normal(l.reverse())) by {
                assert forall|i: int| 0 <= i < l.reverse().len() implies (#[trigger] l.reverse()[i] matches Ok(e)
                    ==> normal_name(e.file_name)) by {
                    assert(l.reverse()[i] == l[l.len() - 1 - i]);
                }
            }
            lemma_drain_in_order(planner, v.queue, v.scans, scan, l.reverse());
        },
        (PhaseView::AwaitLink { scan, remaining, link: LinkView::AwaitTarget { entry, destination, unfollowed } }, FsResponse::Path(Ok(target))) => {
        },
        (PhaseView::AwaitLink { scan, remaining, link: LinkView::AwaitTargetExistence { entry, destination, unfollowed, target } }, FsResponse::Metadata(m)) => {
            lemma_entry_counterpart_destination(src, dst, scan, unfollowed, destination);
        },
        (PhaseView::AwaitLink { scan, remaining, link: LinkView::AwaitBrokenLinkSize { entry, destination, target } }, FsResponse::Metadata(Ok(meta))) => {
            if planner.broken_links() is Keep {
                let op = OperationView::CreateSymlink { link: destination, target, size: meta.len };
                lemma_entry_op_in_order(src, dst, scan, v.queue, op);
                lemma_push_in_order(v.queue, op, path_components(dst));
                lemma_scans_stay_ready(src, dst, v.scans, v.queue, seq![op]);
                assert(v.queue + seq![op] =~= v.queue.push(op));
                if below(src, scan.unfollowed).len() > 0 {
                    lemma_creates_more(v.queue, seq![op], path_components(dst) + below(src, scan.unfollowed));
                }
                lemma_drain_in_order(planner, v.queue.push(op), v.scans, scan, remaining);
            }
        },
        (PhaseView::AwaitLink { scan, remaining, link: LinkView::AwaitTargetMetadata { entry, destination, unfollowed, target } }, FsResponse::Metadata(Ok(meta))) => {
            lemma_entry_counterpart_destination(src, dst, scan, unfollowed, destination);
            let (op, next_scan) = planner.resolved_link_outcome(scan, entry, destination, unfollowed, target, meta);
            let q2 = v.queue + optional(op);
            let s2 = v.scans + optional_scan(next_scan);
            lemma_scans_stay_ready(src, dst, v.scans, v.queue, optional(op));
            if below(src, scan.unfollowed).len() > 0 {
                lemma_creates_more(v.queue, optional(op), path_components(dst) + below(src, scan.unfollowed));
            }
            if let Some(o) = op {
                assert(o.target_path() == destination);
                lemma_entry_op_in_order(src, dst, scan, v.queue, o);
                lemma_push_in_order(v.queue, o, path_components(dst));
                assert(q2 =~= v.queue.push(o));
                if let Some(ns) = next_scan {
                    assert(ns.unfollowed == unfollowed);
                    assert(q2[v.queue.len() as int] == o);
                    assert(creates_directory(q2, path_components(dst) + below(src, unfollowed)));
                }
            } else {
                assert(q2 =~= v.queue);
            }
            assert forall|i: int| 0 <= i < s2.len() implies counterpart_created(src, dst, #[trigger] s2[i].unfollowed, q2) by {
                if i < v.scans.len() {
                    assert(s2[i] == v.scans[i]);
                }
            }
            lemma_drain_in_order(planner, q2, s2, scan, remaining);
        },
        _ => {},
    }
}

/// A copy plan starts in order.
pub proof fn law_plan_starts_in_order(
    source: ValidatedSourceDirectory,
    destination: ValidatedDestinationDirectory,
    links: SymlinkBehaviour,
)
    ensures
        plan_in_order(
            source.directory_path@,
            destination.directory_path@,
            CopyPlanner::initial(source, destination, links).0,
        ),
{
    let src = source.directory_path@;
    assert(path_components(src).is_prefix_of(path_components(src)));
    assert(below(src, src) =~= Seq::<Seq<char>>::empty());
}

} // verus!
