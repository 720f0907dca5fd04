//! A last-in-first-out stack built as a singly linked, node-based chain,
//! presented in two interchangeable encodings of the "next node" relation:
//! a nullable owning reference (`single_direction_link_list`) and an explicit
//! two-variant tag (`stack_link_list`). The `laws` module proves how the
//! operations relate to one another over their common sequence model.

pub mod laws;
pub mod single_direction_link_list;
pub mod stack_link_list;
