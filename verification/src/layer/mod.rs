//! Layers: the capability set every layer offers, the dense layer, and the
//! activation maps applied after a layer's linear transform.

pub mod activation;
pub mod dense;
pub mod trainable;
