//! What holds of links however the graph is driven.

use vstd::prelude::*;
use crate::model::{lemma_link_keeps_wf, lemma_with_port_keeps_wf};
use crate::model::{decode_name, sink_name, source_name};
use crate::graph::{Direction, LinkError};
use crate::model::{GraphModel, PortCapsModel, PortModel};

verus! {

/// Position of the first video entry among announced streams.
pub open spec fn first_video(streams: Seq<PortCapsModel>) -> Option<int>
    decreases streams.len(),
{
    if streams.len() == 0 {
        None
    } else {
        match first_video(streams.drop_last()) {
            Some(k) => Some(k),
            None => if streams.last().is_video() {
                Some(streams.len() - 1)
            } else {
                None
            },
        }
    }
}

impl GraphModel {
    /// The graph after the decode stage announced one stream and the linker
    /// reacted to it.
    pub open spec fn after_stream(
        self,
        decode: int,
        caps: PortCapsModel,
        sink_input: int,
    ) -> GraphModel {
        self.with_output(decode, caps).after_discovery(decode, self.ports.len() as int, sink_input)
    }

    /// The graph after a series of streams was announced, one after the
    /// other.
    pub open spec fn after_streams(
        self,
        decode: int,
        streams: Seq<PortCapsModel>,
        sink_input: int,
    ) -> GraphModel
        decreases streams.len(),
    {
        if streams.len() == 0 {
            self
        } else {
            self.after_streams(decode, streams.drop_last(), sink_input).after_stream(
                decode,
                streams.last(),
                sink_input,
            )
        }
    }

    /// Whether `sink_input` is a free input that takes any video and sits
    /// on another stage than `decode`.
    pub open spec fn is_free_video_input(self, decode: int, sink_input: int) -> bool {
        &&& self.has_port(sink_input)
        &&& self.ports[sink_input].peer.is_none()
        &&& self.ports[sink_input].direction == Direction::Input
        &&& self.ports[sink_input].caps == PortCapsModel::AnyVideo
        &&& self.ports[sink_input].stage != decode
    }
}

/// `first_video` names a video entry that no video entry precedes, and
/// names none only when there is no video entry at all.
pub proof fn lemma_first_video(streams: Seq<PortCapsModel>)
    ensures
        match first_video(streams) {
            Some(k) => {
                &&& 0 <= k < streams.len()
                &&& streams[k].is_video()
                &&& forall|j: int| 0 <= j < k ==> !(#[trigger] streams[j]).is_video()
            },
            None => forall|j: int| 0 <= j < streams.len() ==> !(#[trigger] streams[j]).is_video(),
        },
    decreases streams.len(),
{
    if streams.len() > 0 {
        let front = streams.drop_last();
        lemma_first_video(front);
        match first_video(front) {
            Some(k) => {
                assert(front[k] == streams[k]);
                assert forall|j: int| 0 <= j < k implies !(#[trigger] streams[j]).is_video() by {
                    assert(front[j] == streams[j]);
                }
            },
            None => {
                assert forall|j: int| 0 <= j < streams.len() - 1 implies !(
                #[trigger] streams[j]).is_video() by {
                    assert(front[j] == streams[j]);
                }
            },
        }
    }
}

/// The graph of a run before it starts meets what the linking law asks:
/// stage 1 is the decode stage, and connection point 2 is the sink's free
/// input for video.
pub proof fn law_wired_graph_awaits_video(path: Seq<char>)
    ensures
        GraphModel::wired(path).wf(),
        GraphModel::wired(path).is_decode_stage(1),
        GraphModel::wired(path).is_free_video_input(1, 2),
        GraphModel::wired(path).stages.len() == 3,
        GraphModel::wired(path).ports.len() == 3,
{
    reveal_strlit("src_element");
    reveal_strlit("decode_element");
    reveal_strlit("appsink_element");
    let g = GraphModel::wired(path);
    assert(g.stages[0].name == source_name());
    assert(g.stages[1].name == decode_name());
    assert(g.stages[2].name == sink_name());
    assert(source_name()[0] != decode_name()[0]);
    assert(source_name()[0] != sink_name()[0]);
    assert(decode_name()[0] != sink_name()[0]);
    assert forall|p: int| 0 <= p < g.ports.len() implies #[trigger] g.link_is_mutual(p) by {}
}

/// Linking is a one-time operation for a pair: once it was tried, a second
/// attempt on the same two connection points is refused, and it leaves the
/// graph, which still meets its invariant, exactly as the first attempt
/// left it. After a link that was made, the refusal is `AlreadyLinked`.
pub proof fn law_second_link_is_refused(g: GraphModel, src: int, dst: int)
    requires
        g.wf(),
    ensures
        g.after_link(src, dst).wf(),
        g.after_link(src, dst).link_refusal(src, dst).is_some(),
        g.link_refusal(src, dst).is_none() ==> g.after_link(src, dst).link_refusal(src, dst)
            == Some(LinkError::AlreadyLinked),
        g.after_link(src, dst).after_link(src, dst) == g.after_link(src, dst),
{
    if g.link_refusal(src, dst).is_none() {
        lemma_link_keeps_wf(g, src, dst);
    }
}

/// Once the sink input is taken, no discovery changes the graph.
pub proof fn law_taken_input_ignores_streams(
    g: GraphModel,
    decode: int,
    caps: PortCapsModel,
    sink_input: int,
)
    requires
        g.has_port(sink_input),
        g.ports[sink_input].peer.is_some(),
    ensures
        g.after_stream(decode, caps, sink_input) == g.with_output(decode, caps),
{
    let announced = g.with_output(decode, caps);
    assert(announced.ports[sink_input] == g.ports[sink_input]);
}

/// The connection point that an announced stream leaves in the arena.
pub open spec fn stream_port(decode: int, caps: PortCapsModel, peer: Option<int>) -> PortModel {
    PortModel { stage: decode, direction: Direction::Output, caps: caps, peer: peer }
}

/// The peer of the `j`-th announced stream once all were handled: the sink
/// input for the first video stream, none for any other.
pub open spec fn peer_of_stream(streams: Seq<PortCapsModel>, j: int, sink_input: int) -> Option<
    int,
> {
    if first_video(streams) == Some(j) {
        Some(sink_input)
    } else {
        None
    }
}

/// Of the streams that a decode stage announces, the first video one is
/// linked to the sink input and no other: streams before it are not video,
/// streams after it find the input taken. Without a video stream the input
/// stays free. Nothing else in the graph changes, and its invariant holds
/// throughout.
pub proof fn law_first_video_stream_is_linked(
    g: GraphModel,
    decode: int,
    streams: Seq<PortCapsModel>,
    sink_input: int,
)
    requires
        g.wf(),
        g.is_decode_stage(decode),
        g.is_free_video_input(decode, sink_input),
    ensures
        ({
            let h = g.after_streams(decode, streams, sink_input);
            let base = g.ports.len() as int;
            &&& h.wf()
            &&& h.stages == g.stages
            &&& h.target == g.target
            &&& h.current == g.current
            &&& h.ports.len() == base + streams.len()
            &&& forall|p: int|
                0 <= p < base && p != sink_input ==> #[trigger] h.ports[p] == g.ports[p]
            &&& h.ports[sink_input] == (PortModel {
                peer: match first_video(streams) {
                    Some(k) => Some(base + k),
                    None => None,
                },
                ..g.ports[sink_input]
            })
            &&& forall|j: int|
                0 <= j < streams.len() ==> #[trigger] h.ports[base + j] == stream_port(
                    decode,
                    streams[j],
                    peer_of_stream(streams, j, sink_input),
                )
        }),
    decreases streams.len(),
{
    let base = g.ports.len() as int;
    if streams.len() > 0 {
        let front = streams.drop_last();
        let caps = streams.last();
        let n = front.len() as int;
        law_first_video_stream_is_linked(g, decode, front, sink_input);
        lemma_first_video(front);
        let mid = g.after_streams(decode, front, sink_input);
        let fresh = stream_port(decode, caps, None);
        let announced = mid.with_port(fresh);
        let h = g.after_streams(decode, streams, sink_input);
        assert(mid.is_decode_stage(decode));
        assert(mid.with_output(decode, caps) == announced);
        assert(h == announced.after_discovery(decode, base + n, sink_input));
        lemma_with_port_keeps_wf(mid, fresh);
        assert(announced.ports[sink_input] == mid.ports[sink_input]);
        assert(announced.ports[base + n] == fresh);
        if first_video(front).is_none() && caps.is_video() {
            assert(announced.wants_link(base + n, sink_input));
            assert(caps.fits(PortCapsModel::AnyVideo));
            assert(announced.link_refusal(base + n, sink_input).is_none());
            assert(h == announced.linked(base + n, sink_input));
            lemma_link_keeps_wf(announced, base + n, sink_input);
        } else {
            assert(!announced.wants_link(base + n, sink_input));
            assert(h == announced);
        }
        assert forall|j: int| 0 <= j < streams.len() implies #[trigger] h.ports[base + j]
            == stream_port(decode, streams[j], peer_of_stream(streams, j, sink_input)) by {
            if j < n {
                assert(front[j] == streams[j]);
                assert(h.ports[base + j] == mid.ports[base + j]);
            }
        }
        assert forall|p: int| 0 <= p < base && p != sink_input implies #[trigger] h.ports[p]
            == g.ports[p] by {
            assert(mid.ports[p] == g.ports[p]);
            assert(h.ports[p] == mid.ports[p]);
        }
    }
}

} // verus!
