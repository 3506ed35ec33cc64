//! The entity extractor: maps the chat client's formatting spans, one to
//! one, to typed text spans over the display text.
//!
//! Offsets and lengths are copied verbatim — the spans already address the
//! display text in codepoint units — and input order is preserved. Spans of
//! a kind with no mapping are dropped. When no spans were supplied the
//! result is empty: the extractor never derives formatting from the text
//! itself.

use vstd::prelude::*;

use crate::message::{clone_opt_string, EntityType, TextEntity, TextEntityView};
use crate::raw::{RawMessage, RawSpanKind, RawSpanView};

verus! {

/// The typed span kind a raw span kind is mapped to, or `None` for a kind
/// the pipeline does not support.
pub open spec fn span_kind_mapping(k: RawSpanKind) -> Option<EntityType> {
    match k {
        RawSpanKind::Bold => Some(EntityType::Bold),
        RawSpanKind::Italic => Some(EntityType::Italic),
        RawSpanKind::Code => Some(EntityType::Code),
        RawSpanKind::Pre => Some(EntityType::Pre),
        RawSpanKind::TextUrl => Some(EntityType::TextLink),
        RawSpanKind::Url => Some(EntityType::Link),
        RawSpanKind::Mention => Some(EntityType::Mention),
        RawSpanKind::Hashtag => Some(EntityType::Hashtag),
        RawSpanKind::BotCommand => Some(EntityType::BotCommand),
        RawSpanKind::Email => Some(EntityType::Email),
        RawSpanKind::Phone => Some(EntityType::Phone),
        RawSpanKind::Unsupported => None,
    }
}

/// The typed span a raw span maps to: offset and length copied verbatim,
/// and the supplied URL kept only on text-link spans.
pub open spec fn span_to_entity(s: RawSpanView, t: EntityType) -> TextEntityView {
    TextEntityView {
        offset: s.offset,
        length: s.length,
        entity_type: t,
        url: if t is TextLink {
            s.url
        } else {
            None
        },
    }
}

/// The ordered sequence of typed spans extracted from `spans`: each raw span
/// whose kind has a mapping contributes one typed span, in input order.
pub open spec fn extract_spec(spans: Seq<RawSpanView>) -> Seq<TextEntityView>
    decreases spans.len(),
{
    if spans.len() == 0 {
        Seq::<TextEntityView>::empty()
    } else {
        let rest = extract_spec(spans.drop_last());
        match span_kind_mapping(spans.last().kind) {
            Some(t) => rest.push(span_to_entity(spans.last(), t)),
            None => rest,
        }
    }
}

/// Law: extraction copies offsets and lengths verbatim, so a bound that
/// holds of every raw span's extent holds of every extracted span's extent:
/// where each raw span ends at or before `limit`, each extracted span does
/// too.
pub proof fn lemma_extract_preserves_extent(spans: Seq<RawSpanView>, limit: int)
    requires
        forall|k: int|
            0 <= k < spans.len() ==> #[trigger] spans[k].offset + spans[k].length <= limit,
    ensures
        forall|k: int|
            0 <= k < extract_spec(spans).len() ==> #[trigger] extract_spec(spans)[k].offset
                + extract_spec(spans)[k].length <= limit,
    decreases spans.len(),
{
    if spans.len() > 0 {
        let front = spans.drop_last();
        assert forall|k: int| 0 <= k < front.len() implies #[trigger] front[k].offset
            + front[k].length <= limit by {
            assert(front[k] == spans[k]);
        }
        lemma_extract_preserves_extent(front, limit);
    }
}

/// Every extracted span's offset stays at or below a bound that holds of
/// every raw span's offset.
proof fn lemma_extract_offset_bound(spans: Seq<RawSpanView>, bound: usize)
    requires
        forall|k: int| 0 <= k < spans.len() ==> #[trigger] spans[k].offset <= bound,
    ensures
        forall|k: int|
            0 <= k < extract_spec(spans).len() ==> #[trigger] extract_spec(spans)[k].offset
                <= bound,
    decreases spans.len(),
{
    if spans.len() > 0 {
        let front = spans.drop_last();
        assert forall|k: int| 0 <= k < front.len() implies #[trigger] front[k].offset <= bound by {
            assert(front[k] == spans[k]);
        }
        lemma_extract_offset_bound(front, bound);
    }
}

/// Law: extraction preserves the received order: where the raw spans arrive
/// sorted ascending by offset, the extracted spans are sorted ascending by
/// offset as well, spans with equal offsets staying in encounter order.
pub proof fn lemma_extract_preserves_order(spans: Seq<RawSpanView>)
    requires
        forall|k1: int, k2: int|
            #![trigger spans[k1], spans[k2]]
            0 <= k1 < k2 < spans.len() ==> spans[k1].offset <= spans[k2].offset,
    ensures
        forall|k1: int, k2: int|
            #![trigger extract_spec(spans)[k1], extract_spec(spans)[k2]]
            0 <= k1 < k2 < extract_spec(spans).len() ==> extract_spec(spans)[k1].offset
                <= extract_spec(spans)[k2].offset,
    decreases spans.len(),
{
    if spans.len() > 0 {
        let front = spans.drop_last();
        let last = spans.last();
        assert forall|k1: int, k2: int|
            #![trigger front[k1], front[k2]]
            0 <= k1 < k2 < front.len() implies front[k1].offset <= front[k2].offset by {
            assert(front[k1] == spans[k1]);
            assert(front[k2] == spans[k2]);
        }
        lemma_extract_preserves_order(front);
        assert forall|k: int| 0 <= k < front.len() implies #[trigger] front[k].offset
            <= last.offset by {
            assert(front[k] == spans[k]);
            assert(last == spans[spans.len() - 1]);
        }
        lemma_extract_offset_bound(front, last.offset);
    }
}

/// Maps the service's span kind to the typed span kind; kinds the pipeline
/// does not support are reported as `None` and dropped by the caller.
pub fn map_span_kind(k: RawSpanKind) -> (r: Option<EntityType>)
    ensures
        r == span_kind_mapping(k),
{
    match k {
        RawSpanKind::Bold => Option::Some(EntityType::Bold),
        RawSpanKind::Italic => Option::Some(EntityType::Italic),
        RawSpanKind::Code => Option::Some(EntityType::Code),
        RawSpanKind::Pre => Option::Some(EntityType::Pre),
        RawSpanKind::TextUrl => Option::Some(EntityType::TextLink),
        RawSpanKind::Url => Option::Some(EntityType::Link),
        RawSpanKind::Mention => Option::Some(EntityType::Mention),
        RawSpanKind::Hashtag => Option::Some(EntityType::Hashtag),
        RawSpanKind::BotCommand => Option::Some(EntityType::BotCommand),
        RawSpanKind::Email => Option::Some(EntityType::Email),
        RawSpanKind::Phone => Option::Some(EntityType::Phone),
        RawSpanKind::Unsupported => Option::None,
    }
}

/// Maps the raw message's formatting spans to typed text spans, dropping
/// unsupported kinds and preserving input order.
pub fn extract_text_entities(raw: &RawMessage) -> (r: Vec<TextEntity>)
    ensures
        r.deep_view() == extract_spec(raw.spans.deep_view()),
{
    let ghost all: Seq<RawSpanView> = raw.spans.deep_view();
    let mut r: Vec<TextEntity> = Vec::new();
    let mut i: usize = 0;
    while i < raw.spans.len()
        invariant
            i <= raw.spans@.len(),
            all == raw.spans.deep_view(),
            r.deep_view() == extract_spec(all.take(i as int)),
        decreases raw.spans@.len() - i,
    {
        let span = &raw.spans[i];
        let ghost before = r.deep_view();
        match map_span_kind(span.kind) {
            Option::Some(t) => {
                let url = if t == EntityType::TextLink {
                    clone_opt_string(&span.url)
                } else {
                    Option::None
                };
                r.push(TextEntity { offset: span.offset, length: span.length, entity_type: t, url });
                proof {
                    assert(r.deep_view() =~= before.push(
                        span_to_entity(all[i as int], t),
                    ));
                }
            },
            Option::None => {},
        }
        proof {
            assert(all.take(i as int + 1).drop_last() =~= all.take(i as int));
            assert(all.take(i as int + 1).last() == all[i as int]);
        }
        i = i + 1;
    }
    proof {
        assert(all.take(raw.spans@.len() as int) =~= all);
    }
    r
}

} // verus!
