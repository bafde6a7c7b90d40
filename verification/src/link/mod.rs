mod peer;

pub use peer::{
    delivery_for, lemma_only_sync_traffic_is_unreliable, lemma_remember_forgets_only_the_oldest, lemma_remember_keeps_recent_window, lemma_remembered_is_dropped, recent_window,
    remember, reported_codec_failure, reported_transmission, spec_delivery_for, CodecError, Delivery, LinkError, MessageKind, PeerLink, PeerTransport,
    TransportError, SEQUENCE_MEMORY,
};
