//! Model of two material-design UI components: a drawer content panel and a
//! dropdown select field.
//!
//! The components are described framework-free: rendering is a pure function
//! from property values to a [`markup::Node`] tree, and the select field's
//! widget lifecycle is a state machine that emits [`select::SelectAction`]
//! values for a host shell to perform against the native widget controller.

pub mod content;
pub mod markup;
pub mod select;
