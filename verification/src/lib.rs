//! The node layer of a lossless syntax tree for a typed Lua dialect.
//!
//! Every token keeps the whitespace and comments that surround it, so a tree
//! renders back to the very text it stands for. The nodes here are the type
//! annotations, the declarations built from them, and the compound assignment
//! statement.
//!
//! - [`tokenizer`] holds tokens and their trivia, and reads single symbols.
//! - [`ast`] holds the nodes. Each node renders itself, reports its span,
//!   compares by structure, can be copied free of the source buffer, and hands
//!   out its tokens in source order.
//! - [`visitors`] walks a tree and shows every node and token to a visitor.
//! - [`rewrite`] makes a new tree out of an old one through a rewriter.
//! - [`text`] holds the few operations on strings that the rest is built on.

pub mod ast;
pub mod rewrite;
pub mod text;
pub mod tokenizer;
pub mod visitors;
