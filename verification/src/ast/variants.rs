//! Reading and replacing the parts of a variant.
//!
//! A node that is one of several variants has a part only when it is the
//! variant that has it. Reading a part of another variant gives nothing, and
//! replacing it changes nothing.

use crate::ast::punctuated::Punctuated;
use crate::ast::span::ContainedSpan;
use crate::ast::types::{
    type_field_pairs_view, type_field_pairs_well_formed, type_info_pairs_view,
    type_info_pairs_well_formed, CompoundOp, CompoundOpView, IndexedTypeInfo,
    IndexedTypeInfoView, TypeField, TypeFieldKey, TypeFieldKeyView, TypeInfo, TypeInfoView,
};
use crate::ast::Expression;
use crate::tokenizer::{Symbol, TokenReference};
use vstd::prelude::*;

verus! {

impl<'a> TypeInfo<'a> {
    /// Of an array type, the braces. Nothing for any other variant.
    pub fn array_braces(&self) -> (part: Option<&ContainedSpan<'a>>)
        ensures
            match part {
                Some(part) => self@ is Array && part@ == self@->Array_braces,
                None => !(self@ is Array),
            },
    {
        match self {
            TypeInfo::Array { braces, .. } => Some(braces),
            _ => None,
        }
    }

    /// Of an array type, the inner type. Nothing for any other variant.
    pub fn array_type_info(&self) -> (part: Option<&TypeInfo<'a>>)
        ensures
            match part {
                Some(part) => self@ is Array && part@ == *self@->Array_type_info,
                None => !(self@ is Array),
            },
    {
        match self {
            TypeInfo::Array { type_info, .. } => Some(&**type_info),
            _ => None,
        }
    }

    /// Of a type that is a single name, the token. Nothing for any other variant.
    pub fn basic_token(&self) -> (part: Option<&TokenReference<'a>>)
        ensures
            match part {
                Some(part) => self@ is Basic && part@ == self@->Basic_0,
                None => !(self@ is Basic),
            },
    {
        match self {
            TypeInfo::Basic(token) => Some(token),
            _ => None,
        }
    }

    /// Of a function type, the parentheses. Nothing for any other variant.
    pub fn callback_parentheses(&self) -> (part: Option<&ContainedSpan<'a>>)
        ensures
            match part {
                Some(part) => self@ is Callback && part@ == self@->Callback_parentheses,
                None => !(self@ is Callback),
            },
    {
        match self {
            TypeInfo::Callback { parentheses, .. } => Some(parentheses),
            _ => None,
        }
    }

    /// Of a function type, the types of the arguments. Nothing for any other variant.
    pub fn callback_arguments(&self) -> (part: Option<&Punctuated<'a, TypeInfo<'a>>>)
        ensures
            match part {
                Some(part) => self@ is Callback
                    && type_info_pairs_view(part) == self@->Callback_arguments,
                None => !(self@ is Callback),
            },
    {
        match self {
            TypeInfo::Callback { arguments, .. } => Some(arguments),
            _ => None,
        }
    }

    /// Of a function type, the arrow. Nothing for any other variant.
    pub fn callback_arrow(&self) -> (part: Option<&TokenReference<'a>>)
        ensures
            match part {
                Some(part) => self@ is Callback && part@ == self@->Callback_arrow,
                None => !(self@ is Callback),
            },
    {
        match self {
            TypeInfo::Callback { arrow, .. } => Some(arrow),
            _ => None,
        }
    }

    /// Of a function type, the return type. Nothing for any other variant.
    pub fn callback_return_type(&self) -> (part: Option<&TypeInfo<'a>>)
        ensures
            match part {
                Some(part) => self@ is Callback && part@ == *self@->Callback_return_type,
                None => !(self@ is Callback),
            },
    {
        match self {
            TypeInfo::Callback { return_type, .. } => Some(&**return_type),
            _ => None,
        }
    }

    /// Of a type with parameters, the base. Nothing for any other variant.
    pub fn generic_base(&self) -> (part: Option<&TokenReference<'a>>)
        ensures
            match part {
                Some(part) => self@ is Generic && part@ == self@->Generic_base,
                None => !(self@ is Generic),
            },
    {
        match self {
            TypeInfo::Generic { base, .. } => Some(base),
            _ => None,
        }
    }

    /// Of a type with parameters, the angle brackets. Nothing for any other variant.
    pub fn generic_arrows(&self) -> (part: Option<&ContainedSpan<'a>>)
        ensures
            match part {
                Some(part) => self@ is Generic && part@ == self@->Generic_arrows,
                None => !(self@ is Generic),
            },
    {
        match self {
            TypeInfo::Generic { arrows, .. } => Some(arrows),
            _ => None,
        }
    }

    /// Of a type with parameters, the parameters. Nothing for any other variant.
    pub fn generic_generics(&self) -> (part: Option<&Punctuated<'a, TypeInfo<'a>>>)
        ensures
            match part {
                Some(part) => self@ is Generic
                    && type_info_pairs_view(part) == self@->Generic_generics,
                None => !(self@ is Generic),
            },
    {
        match self {
            TypeInfo::Generic { generics, .. } => Some(generics),
            _ => None,
        }
    }

    /// Of an intersection, the left side. Nothing for any other variant.
    pub fn intersection_left(&self) -> (part: Option<&TypeInfo<'a>>)
        ensures
            match part {
                Some(part) => self@ is Intersection && part@ == *self@->Intersection_left,
                None => !(self@ is Intersection),
            },
    {
        match self {
            TypeInfo::Intersection { left, .. } => Some(&**left),
            _ => None,
        }
    }

    /// Of an intersection, the `&`. Nothing for any other variant.
    pub fn intersection_ampersand(&self) -> (part: Option<&TokenReference<'a>>)
        ensures
            match part {
                Some(part) => self@ is Intersection && part@ == self@->Intersection_ampersand,
                None => !(self@ is Intersection),
            },
    {
        match self {
            TypeInfo::Intersection { ampersand, .. } => Some(ampersand),
            _ => None,
        }
    }

    /// Of an intersection, the right side. Nothing for any other variant.
    pub fn intersection_right(&self) -> (part: Option<&TypeInfo<'a>>)
        ensures
            match part {
                Some(part) => self@ is Intersection && part@ == *self@->Intersection_right,
                None => !(self@ is Intersection),
            },
    {
        match self {
            TypeInfo::Intersection { right, .. } => Some(&**right),
            _ => None,
        }
    }

    /// Of a type that belongs to a module, the name of the module. Nothing for any other variant.
    pub fn module_module(&self) -> (part: Option<&TokenReference<'a>>)
        ensures
            match part {
                Some(part) => self@ is Module && part@ == self@->Module_module,
                None => !(self@ is Module),
            },
    {
        match self {
            TypeInfo::Module { module, .. } => Some(module),
            _ => None,
        }
    }

    /// Of a type that belongs to a module, the dot. Nothing for any other variant.
    pub fn module_punctuation(&self) -> (part: Option<&TokenReference<'a>>)
        ensures
            match part {
                Some(part) => self@ is Module && part@ == self@->Module_punctuation,
                None => !(self@ is Module),
            },
    {
        match self {
            TypeInfo::Module { punctuation, .. } => Some(punctuation),
            _ => None,
        }
    }

    /// Of a type that belongs to a module, the inner type. Nothing for any other variant.
    pub fn module_type_info(&self) -> (part: Option<&IndexedTypeInfo<'a>>)
        ensures
            match part {
                Some(part) => self@ is Module && part@ == *self@->Module_type_info,
                None => !(self@ is Module),
            },
    {
        match self {
            TypeInfo::Module { type_info, .. } => Some(&**type_info),
            _ => None,
        }
    }

    /// Of an optional type, the base. Nothing for any other variant.
    pub fn optional_base(&self) -> (part: Option<&TypeInfo<'a>>)
        ensures
            match part {
                Some(part) => self@ is Optional && part@ == *self@->Optional_base,
                None => !(self@ is Optional),
            },
    {
        match self {
            TypeInfo::Optional { base, .. } => Some(&**base),
            _ => None,
        }
    }

    /// Of an optional type, the `?`. Nothing for any other variant.
    pub fn optional_question_mark(&self) -> (part: Option<&TokenReference<'a>>)
        ensures
            match part {
                Some(part) => self@ is Optional && part@ == self@->Optional_question_mark,
                None => !(self@ is Optional),
            },
    {
        match self {
            TypeInfo::Optional { question_mark, .. } => Some(question_mark),
            _ => None,
        }
    }

    /// Of a table type, the braces. Nothing for any other variant.
    pub fn table_braces(&self) -> (part: Option<&ContainedSpan<'a>>)
        ensures
            match part {
                Some(part) => self@ is Table && part@ == self@->Table_braces,
                None => !(self@ is Table),
            },
    {
        match self {
            TypeInfo::Table { braces, .. } => Some(braces),
            _ => None,
        }
    }

    /// Of a table type, the fields. Nothing for any other variant.
    pub fn table_fields(&self) -> (part: Option<&Punctuated<'a, TypeField<'a>>>)
        ensures
            match part {
                Some(part) => self@ is Table && type_field_pairs_view(part) == self@->Table_fields,
                None => !(self@ is Table),
            },
    {
        match self {
            TypeInfo::Table { fields, .. } => Some(fields),
            _ => None,
        }
    }

    /// Of a `typeof` type, the word `typeof`. Nothing for any other variant.
    pub fn typeof_token(&self) -> (part: Option<&TokenReference<'a>>)
        ensures
            match part {
                Some(part) => self@ is Typeof && part@ == self@->Typeof_typeof_token,
                None => !(self@ is Typeof),
            },
    {
        match self {
            TypeInfo::Typeof { typeof_token, .. } => Some(typeof_token),
            _ => None,
        }
    }

    /// Of a `typeof` type, the parentheses. Nothing for any other variant.
    pub fn typeof_parentheses(&self) -> (part: Option<&ContainedSpan<'a>>)
        ensures
            match part {
                Some(part) => self@ is Typeof && part@ == self@->Typeof_parentheses,
                None => !(self@ is Typeof),
            },
    {
        match self {
            TypeInfo::Typeof { parentheses, .. } => Some(parentheses),
            _ => None,
        }
    }

    /// Of a `typeof` type, what stands inside. Nothing for any other variant.
    pub fn typeof_inner(&self) -> (part: Option<&Expression<'a>>)
        ensures
            match part {
                Some(part) => self@ is Typeof && part@ == *self@->Typeof_inner,
                None => !(self@ is Typeof),
            },
    {
        match self {
            TypeInfo::Typeof { inner, .. } => Some(&**inner),
            _ => None,
        }
    }

    /// Of a tuple, the parentheses. Nothing for any other variant.
    pub fn tuple_parentheses(&self) -> (part: Option<&ContainedSpan<'a>>)
        ensures
            match part {
                Some(part) => self@ is Tuple && part@ == self@->Tuple_parentheses,
                None => !(self@ is Tuple),
            },
    {
        match self {
            TypeInfo::Tuple { parentheses, .. } => Some(parentheses),
            _ => None,
        }
    }

    /// Of a tuple, the types. Nothing for any other variant.
    pub fn tuple_types(&self) -> (part: Option<&Punctuated<'a, TypeInfo<'a>>>)
        ensures
            match part {
                Some(part) => self@ is Tuple && type_info_pairs_view(part) == self@->Tuple_types,
                None => !(self@ is Tuple),
            },
    {
        match self {
            TypeInfo::Tuple { types, .. } => Some(types),
            _ => None,
        }
    }

    /// Of a union, the left side. Nothing for any other variant.
    pub fn union_left(&self) -> (part: Option<&TypeInfo<'a>>)
        ensures
            match part {
                Some(part) => self@ is Union && part@ == *self@->Union_left,
                None => !(self@ is Union),
            },
    {
        match self {
            TypeInfo::Union { left, .. } => Some(&**left),
            _ => None,
        }
    }

    /// Of a union, the `|`. Nothing for any other variant.
    pub fn union_pipe(&self) -> (part: Option<&TokenReference<'a>>)
        ensures
            match part {
                Some(part) => self@ is Union && part@ == self@->Union_pipe,
                None => !(self@ is Union),
            },
    {
        match self {
            TypeInfo::Union { pipe, .. } => Some(pipe),
            _ => None,
        }
    }

    /// Of a union, the right side. Nothing for any other variant.
    pub fn union_right(&self) -> (part: Option<&TypeInfo<'a>>)
        ensures
            match part {
                Some(part) => self@ is Union && part@ == *self@->Union_right,
                None => !(self@ is Union),
            },
    {
        match self {
            TypeInfo::Union { right, .. } => Some(&**right),
            _ => None,
        }
    }

    /// Of a variadic type, the `...`. Nothing for any other variant.
    pub fn variadic_ellipse(&self) -> (part: Option<&TokenReference<'a>>)
        ensures
            match part {
                Some(part) => self@ is Variadic && part@ == self@->Variadic_ellipse,
                None => !(self@ is Variadic),
            },
    {
        match self {
            TypeInfo::Variadic { ellipse, .. } => Some(ellipse),
            _ => None,
        }
    }

    /// Of a variadic type, the inner type. Nothing for any other variant.
    pub fn variadic_type_info(&self) -> (part: Option<&TypeInfo<'a>>)
        ensures
            match part {
                Some(part) => self@ is Variadic && part@ == *self@->Variadic_type_info,
                None => !(self@ is Variadic),
            },
    {
        match self {
            TypeInfo::Variadic { type_info, .. } => Some(&**type_info),
            _ => None,
        }
    }

    /// If this is an array type: the same node with
    /// the braces replaced and the rest as it was.
    /// Any other variant comes back unchanged.
    pub fn with_array_braces(self, braces: ContainedSpan<'a>) -> (node: Self)
        ensures
            node@ == (match self@ {
                TypeInfoView::Array { braces: _, type_info } =>
                    TypeInfoView::Array { braces: braces@, type_info },
                other => other,
            }),
            self@.well_formed()
                && braces@.is_pair(Symbol::LeftBrace, Symbol::RightBrace) ==> node@.well_formed(),
    {
        match self {
            TypeInfo::Array { type_info, .. } => TypeInfo::Array { braces, type_info },
            other => other,
        }
    }

    /// If this is an array type: the same node with
    /// the inner type replaced and the rest as it was.
    /// Any other variant comes back unchanged.
    pub fn with_array_type_info(self, type_info: Box<TypeInfo<'a>>) -> (node: Self)
        ensures
            node@ == (match self@ {
                TypeInfoView::Array { braces, type_info: _ } =>
                    TypeInfoView::Array { braces, type_info: Box::new(type_info@) },
                other => other,
            }),
            self@.well_formed() && type_info@.well_formed() ==> node@.well_formed(),
    {
        match self {
            TypeInfo::Array { braces, .. } => TypeInfo::Array { braces, type_info },
            other => other,
        }
    }

    /// If this is a type that is a single name: the same node with
    /// the token replaced and the rest as it was.
    /// Any other variant comes back unchanged.
    pub fn with_basic_token(self, token: TokenReference<'a>) -> (node: Self)
        ensures
            node@ == (match self@ {
                TypeInfoView::Basic(_) => TypeInfoView::Basic(token@),
                other => other,
            }),
            self@.well_formed() ==> node@.well_formed(),
    {
        match self {
            TypeInfo::Basic(_) => TypeInfo::Basic(token),
            other => other,
        }
    }

    /// If this is a function type: the same node with
    /// the parentheses replaced and the rest as it was.
    /// Any other variant comes back unchanged.
    pub fn with_callback_parentheses(self, parentheses: ContainedSpan<'a>) -> (node: Self)
        ensures
            node@ == (match self@ {
                TypeInfoView::Callback { parentheses: _, arguments, arrow, return_type } =>
                    TypeInfoView::Callback {
                        parentheses: parentheses@,
                        arguments,
                        arrow,
                        return_type,
                    },
                other => other,
            }),
            self@.well_formed()
                && parentheses@.is_pair(Symbol::LeftParen, Symbol::RightParen) ==>
                    node@.well_formed(),
    {
        match self {
            TypeInfo::Callback { arguments, arrow, return_type, .. } =>
                TypeInfo::Callback { parentheses, arguments, arrow, return_type },
            other => other,
        }
    }

    /// If this is a function type: the same node with
    /// the types of the arguments replaced and the rest as it was.
    /// Any other variant comes back unchanged.
    pub fn with_callback_arguments(self, arguments: Punctuated<'a, TypeInfo<'a>>) -> (node: Self)
        ensures
            node@ == (match self@ {
                TypeInfoView::Callback { parentheses, arguments: _, arrow, return_type } =>
                    TypeInfoView::Callback {
                        parentheses,
                        arguments: type_info_pairs_view(&arguments),
                        arrow,
                        return_type,
                    },
                other => other,
            }),
            self@.well_formed()
                && type_info_pairs_well_formed(type_info_pairs_view(&arguments)) ==>
                    node@.well_formed(),
    {
        match self {
            TypeInfo::Callback { parentheses, arrow, return_type, .. } =>
                TypeInfo::Callback { parentheses, arguments, arrow, return_type },
            other => other,
        }
    }

    /// If this is a function type: the same node with
    /// the arrow replaced and the rest as it was.
    /// Any other variant comes back unchanged.
    pub fn with_callback_arrow(self, arrow: TokenReference<'a>) -> (node: Self)
        ensures
            node@ == (match self@ {
                TypeInfoView::Callback { parentheses, arguments, arrow: _, return_type } =>
                    TypeInfoView::Callback { parentheses, arguments, arrow: arrow@, return_type },
                other => other,
            }),
            self@.well_formed() ==> node@.well_formed(),
    {
        match self {
            TypeInfo::Callback { parentheses, arguments, return_type, .. } =>
                TypeInfo::Callback { parentheses, arguments, arrow, return_type },
            other => other,
        }
    }

    /// If this is a function type: the same node with
    /// the return type replaced and the rest as it was.
    /// Any other variant comes back unchanged.
    pub fn with_callback_return_type(self, return_type: Box<TypeInfo<'a>>) -> (node: Self)
        ensures
            node@ == (match self@ {
                TypeInfoView::Callback { parentheses, arguments, arrow, return_type: _ } =>
                    TypeInfoView::Callback {
                        parentheses,
                        arguments,
                        arrow,
                        return_type: Box::new(return_type@),
                    },
                other => other,
            }),
            self@.well_formed() && return_type@.well_formed() ==> node@.well_formed(),
    {
        match self {
            TypeInfo::Callback { parentheses, arguments, arrow, .. } =>
                TypeInfo::Callback { parentheses, arguments, arrow, return_type },
            other => other,
        }
    }

    /// If this is a type with parameters: the same node with
    /// the base replaced and the rest as it was.
    /// Any other variant comes back unchanged.
    pub fn with_generic_base(self, base: TokenReference<'a>) -> (node: Self)
        ensures
            node@ == (match self@ {
                TypeInfoView::Generic { base: _, arrows, generics } =>
                    TypeInfoView::Generic { base: base@, arrows, generics },
                other => other,
            }),
            self@.well_formed() ==> node@.well_formed(),
    {
        match self {
            TypeInfo::Generic { arrows, generics, .. } =>
                TypeInfo::Generic { base, arrows, generics },
            other => other,
        }
    }

    /// If this is a type with parameters: the same node with
    /// the angle brackets replaced and the rest as it was.
    /// Any other variant comes back unchanged.
    pub fn with_generic_arrows(self, arrows: ContainedSpan<'a>) -> (node: Self)
        ensures
            node@ == (match self@ {
                TypeInfoView::Generic { base, arrows: _, generics } =>
                    TypeInfoView::Generic { base, arrows: arrows@, generics },
                other => other,
            }),
            self@.well_formed()
                && arrows@.is_pair(Symbol::LessThan, Symbol::GreaterThan) ==> node@.well_formed(),
    {
        match self {
            TypeInfo::Generic { base, generics, .. } =>
                TypeInfo::Generic { base, arrows, generics },
            other => other,
        }
    }

    /// If this is a type with parameters: the same node with
    /// the parameters replaced and the rest as it was.
    /// Any other variant comes back unchanged.
    pub fn with_generic_generics(self, generics: Punctuated<'a, TypeInfo<'a>>) -> (node: Self)
        ensures
            node@ == (match self@ {
                TypeInfoView::Generic { base, arrows, generics: _ } =>
                    TypeInfoView::Generic {
                        base,
                        arrows,
                        generics: type_info_pairs_view(&generics),
                    },
                other => other,
            }),
            self@.well_formed()
                && type_info_pairs_well_formed(type_info_pairs_view(&generics)) ==>
                    node@.well_formed(),
    {
        match self {
            TypeInfo::Generic { base, arrows, .. } => TypeInfo::Generic { base, arrows, generics },
            other => other,
        }
    }

    /// If this is an intersection: the same node with
    /// the left side replaced and the rest as it was.
    /// Any other variant comes back unchanged.
    pub fn with_intersection_left(self, left: Box<TypeInfo<'a>>) -> (node: Self)
        ensures
            node@ == (match self@ {
                TypeInfoView::Intersection { left: _, ampersand, right } =>
                    TypeInfoView::Intersection { left: Box::new(left@), ampersand, right },
                other => other,
            }),
            self@.well_formed() && left@.well_formed() ==> node@.well_formed(),
    {
        match self {
            TypeInfo::Intersection { ampersand, right, .. } =>
                TypeInfo::Intersection { left, ampersand, right },
            other => other,
        }
    }

    /// If this is an intersection: the same node with
    /// the `&` replaced and the rest as it was.
    /// Any other variant comes back unchanged.
    pub fn with_intersection_ampersand(self, ampersand: TokenReference<'a>) -> (node: Self)
        ensures
            node@ == (match self@ {
                TypeInfoView::Intersection { left, ampersand: _, right } =>
                    TypeInfoView::Intersection { left, ampersand: ampersand@, right },
                other => other,
            }),
            self@.well_formed() ==> node@.well_formed(),
    {
        match self {
            TypeInfo::Intersection { left, right, .. } =>
                TypeInfo::Intersection { left, ampersand, right },
            other => other,
        }
    }

    /// If this is an intersection: the same node with
    /// the right side replaced and the rest as it was.
    /// Any other variant comes back unchanged.
    pub fn with_intersection_right(self, right: Box<TypeInfo<'a>>) -> (node: Self)
        ensures
            node@ == (match self@ {
                TypeInfoView::Intersection { left, ampersand, right: _ } =>
                    TypeInfoView::Intersection { left, ampersand, right: Box::new(right@) },
                other => other,
            }),
            self@.well_formed() && right@.well_formed() ==> node@.well_formed(),
    {
        match self {
            TypeInfo::Intersection { left, ampersand, .. } =>
                TypeInfo::Intersection { left, ampersand, right },
            other => other,
        }
    }

    /// If this is a type that belongs to a module: the same node with
    /// the name of the module replaced and the rest as it was.
    /// Any other variant comes back unchanged.
    pub fn with_module_module(self, module: TokenReference<'a>) -> (node: Self)
        ensures
            node@ == (match self@ {
                TypeInfoView::Module { module: _, punctuation, type_info } =>
                    TypeInfoView::Module { module: module@, punctuation, type_info },
                other => other,
            }),
            self@.well_formed() ==> node@.well_formed(),
    {
        match self {
            TypeInfo::Module { punctuation, type_info, .. } =>
                TypeInfo::Module { module, punctuation, type_info },
            other => other,
        }
    }

    /// If this is a type that belongs to a module: the same node with
    /// the dot replaced and the rest as it was.
    /// Any other variant comes back unchanged.
    pub fn with_module_punctuation(self, punctuation: TokenReference<'a>) -> (node: Self)
        ensures
            node@ == (match self@ {
                TypeInfoView::Module { module, punctuation: _, type_info } =>
                    TypeInfoView::Module { module, punctuation: punctuation@, type_info },
                other => other,
            }),
            self@.well_formed() ==> node@.well_formed(),
    {
        match self {
            TypeInfo::Module { module, type_info, .. } =>
                TypeInfo::Module { module, punctuation, type_info },
            other => other,
        }
    }

    /// If this is a type that belongs to a module: the same node with
    /// the inner type replaced and the rest as it was.
    /// Any other variant comes back unchanged.
    pub fn with_module_type_info(self, type_info: Box<IndexedTypeInfo<'a>>) -> (node: Self)
        ensures
            node@ == (match self@ {
                TypeInfoView::Module { module, punctuation, type_info: _ } =>
                    TypeInfoView::Module { module, punctuation, type_info: Box::new(type_info@) },
                other => other,
            }),
            self@.well_formed() && type_info@.well_formed() ==> node@.well_formed(),
    {
        match self {
            TypeInfo::Module { module, punctuation, .. } =>
                TypeInfo::Module { module, punctuation, type_info },
            other => other,
        }
    }

    /// If this is an optional type: the same node with
    /// the base replaced and the rest as it was.
    /// Any other variant comes back unchanged.
    pub fn with_optional_base(self, base: Box<TypeInfo<'a>>) -> (node: Self)
        ensures
            node@ == (match self@ {
                TypeInfoView::Optional { base: _, question_mark } =>
                    TypeInfoView::Optional { base: Box::new(base@), question_mark },
                other => other,
            }),
            self@.well_formed() && base@.well_formed() ==> node@.well_formed(),
    {
        match self {
            TypeInfo::Optional { question_mark, .. } => TypeInfo::Optional { base, question_mark },
            other => other,
        }
    }

    /// If this is an optional type: the same node with
    /// the `?` replaced and the rest as it was.
    /// Any other variant comes back unchanged.
    pub fn with_optional_question_mark(self, question_mark: TokenReference<'a>) -> (node: Self)
        ensures
            node@ == (match self@ {
                TypeInfoView::Optional { base, question_mark: _ } =>
                    TypeInfoView::Optional { base, question_mark: question_mark@ },
                other => other,
            }),
            self@.well_formed() ==> node@.well_formed(),
    {
        match self {
            TypeInfo::Optional { base, .. } => TypeInfo::Optional { base, question_mark },
            other => other,
        }
    }

    /// If this is a table type: the same node with
    /// the braces replaced and the rest as it was.
    /// Any other variant comes back unchanged.
    pub fn with_table_braces(self, braces: ContainedSpan<'a>) -> (node: Self)
        ensures
            node@ == (match self@ {
                TypeInfoView::Table { braces: _, fields } =>
                    TypeInfoView::Table { braces: braces@, fields },
                other => other,
            }),
            self@.well_formed()
                && braces@.is_pair(Symbol::LeftBrace, Symbol::RightBrace) ==> node@.well_formed(),
    {
        match self {
            TypeInfo::Table { fields, .. } => TypeInfo::Table { braces, fields },
            other => other,
        }
    }

    /// If this is a table type: the same node with
    /// the fields replaced and the rest as it was.
    /// Any other variant comes back unchanged.
    pub fn with_table_fields(self, fields: Punctuated<'a, TypeField<'a>>) -> (node: Self)
        ensures
            node@ == (match self@ {
                TypeInfoView::Table { braces, fields: _ } =>
                    TypeInfoView::Table { braces, fields: type_field_pairs_view(&fields) },
                other => other,
            }),
            self@.well_formed()
                && type_field_pairs_well_formed(type_field_pairs_view(&fields)) ==>
                    node@.well_formed(),
    {
        match self {
            TypeInfo::Table { braces, .. } => TypeInfo::Table { braces, fields },
            other => other,
        }
    }

    /// If this is a `typeof` type: the same node with
    /// the word `typeof` replaced and the rest as it was.
    /// Any other variant comes back unchanged.
    pub fn with_typeof_token(self, typeof_token: TokenReference<'a>) -> (node: Self)
        ensures
            node@ == (match self@ {
                TypeInfoView::Typeof { typeof_token: _, parentheses, inner } =>
                    TypeInfoView::Typeof { typeof_token: typeof_token@, parentheses, inner },
                other => other,
            }),
            self@.well_formed() ==> node@.well_formed(),
    {
        match self {
            TypeInfo::Typeof { parentheses, inner, .. } =>
                TypeInfo::Typeof { typeof_token, parentheses, inner },
            other => other,
        }
    }

    /// If this is a `typeof` type: the same node with
    /// the parentheses replaced and the rest as it was.
    /// Any other variant comes back unchanged.
    pub fn with_typeof_parentheses(self, parentheses: ContainedSpan<'a>) -> (node: Self)
        ensures
            node@ == (match self@ {
                TypeInfoView::Typeof { typeof_token, parentheses: _, inner } =>
                    TypeInfoView::Typeof { typeof_token, parentheses: parentheses@, inner },
                other => other,
            }),
            self@.well_formed()
                && parentheses@.is_pair(Symbol::LeftParen, Symbol::RightParen) ==>
                    node@.well_formed(),
    {
        match self {
            TypeInfo::Typeof { typeof_token, inner, .. } =>
                TypeInfo::Typeof { typeof_token, parentheses, inner },
            other => other,
        }
    }

    /// If this is a `typeof` type: the same node with
    /// what stands inside replaced and the rest as it was.
    /// Any other variant comes back unchanged.
    pub fn with_typeof_inner(self, inner: Box<Expression<'a>>) -> (node: Self)
        ensures
            node@ == (match self@ {
                TypeInfoView::Typeof { typeof_token, parentheses, inner: _ } =>
                    TypeInfoView::Typeof { typeof_token, parentheses, inner: Box::new(inner@) },
                other => other,
            }),
            self@.well_formed() ==> node@.well_formed(),
    {
        match self {
            TypeInfo::Typeof { typeof_token, parentheses, .. } =>
                TypeInfo::Typeof { typeof_token, parentheses, inner },
            other => other,
        }
    }

    /// If this is a tuple: the same node with
    /// the parentheses replaced and the rest as it was.
    /// Any other variant comes back unchanged.
    pub fn with_tuple_parentheses(self, parentheses: ContainedSpan<'a>) -> (node: Self)
        ensures
            node@ == (match self@ {
                TypeInfoView::Tuple { parentheses: _, types } =>
                    TypeInfoView::Tuple { parentheses: parentheses@, types },
                other => other,
            }),
            self@.well_formed()
                && parentheses@.is_pair(Symbol::LeftParen, Symbol::RightParen) ==>
                    node@.well_formed(),
    {
        match self {
            TypeInfo::Tuple { types, .. } => TypeInfo::Tuple { parentheses, types },
            other => other,
        }
    }

    /// If this is a tuple: the same node with
    /// the types replaced and the rest as it was.
    /// Any other variant comes back unchanged.
    pub fn with_tuple_types(self, types: Punctuated<'a, TypeInfo<'a>>) -> (node: Self)
        ensures
            node@ == (match self@ {
                TypeInfoView::Tuple { parentheses, types: _ } =>
                    TypeInfoView::Tuple { parentheses, types: type_info_pairs_view(&types) },
                other => other,
            }),
            self@.well_formed()
                && type_info_pairs_well_formed(type_info_pairs_view(&types)) ==>
                    node@.well_formed(),
    {
        match self {
            TypeInfo::Tuple { parentheses, .. } => TypeInfo::Tuple { parentheses, types },
            other => other,
        }
    }

    /// If this is a union: the same node with
    /// the left side replaced and the rest as it was.
    /// Any other variant comes back unchanged.
    pub fn with_union_left(self, left: Box<TypeInfo<'a>>) -> (node: Self)
        ensures
            node@ == (match self@ {
                TypeInfoView::Union { left: _, pipe, right } =>
                    TypeInfoView::Union { left: Box::new(left@), pipe, right },
                other => other,
            }),
            self@.well_formed() && left@.well_formed() ==> node@.well_formed(),
    {
        match self {
            TypeInfo::Union { pipe, right, .. } => TypeInfo::Union { left, pipe, right },
            other => other,
        }
    }

    /// If this is a union: the same node with
    /// the `|` replaced and the rest as it was.
    /// Any other variant comes back unchanged.
    pub fn with_union_pipe(self, pipe: TokenReference<'a>) -> (node: Self)
        ensures
            node@ == (match self@ {
                TypeInfoView::Union { left, pipe: _, right } =>
                    TypeInfoView::Union { left, pipe: pipe@, right },
                other => other,
            }),
            self@.well_formed() ==> node@.well_formed(),
    {
        match self {
            TypeInfo::Union { left, right, .. } => TypeInfo::Union { left, pipe, right },
            other => other,
        }
    }

    /// If this is a union: the same node with
    /// the right side replaced and the rest as it was.
    /// Any other variant comes back unchanged.
    pub fn with_union_right(self, right: Box<TypeInfo<'a>>) -> (node: Self)
        ensures
            node@ == (match self@ {
                TypeInfoView::Union { left, pipe, right: _ } =>
                    TypeInfoView::Union { left, pipe, right: Box::new(right@) },
                other => other,
            }),
            self@.well_formed() && right@.well_formed() ==> node@.well_formed(),
    {
        match self {
            TypeInfo::Union { left, pipe, .. } => TypeInfo::Union { left, pipe, right },
            other => other,
        }
    }

    /// If this is a variadic type: the same node with
    /// the `...` replaced and the rest as it was.
    /// Any other variant comes back unchanged.
    pub fn with_variadic_ellipse(self, ellipse: TokenReference<'a>) -> (node: Self)
        ensures
            node@ == (match self@ {
                TypeInfoView::Variadic { ellipse: _, type_info } =>
                    TypeInfoView::Variadic { ellipse: ellipse@, type_info },
                other => other,
            }),
            self@.well_formed() ==> node@.well_formed(),
    {
        match self {
            TypeInfo::Variadic { type_info, .. } => TypeInfo::Variadic { ellipse, type_info },
            other => other,
        }
    }

    /// If this is a variadic type: the same node with
    /// the inner type replaced and the rest as it was.
    /// Any other variant comes back unchanged.
    pub fn with_variadic_type_info(self, type_info: Box<TypeInfo<'a>>) -> (node: Self)
        ensures
            node@ == (match self@ {
                TypeInfoView::Variadic { ellipse, type_info: _ } =>
                    TypeInfoView::Variadic { ellipse, type_info: Box::new(type_info@) },
                other => other,
            }),
            self@.well_formed() && type_info@.well_formed() ==> node@.well_formed(),
    {
        match self {
            TypeInfo::Variadic { ellipse, .. } => TypeInfo::Variadic { ellipse, type_info },
            other => other,
        }
    }
}

impl<'a> IndexedTypeInfo<'a> {
    /// Of a type that is a single name, the token. Nothing for any other variant.
    pub fn basic_token(&self) -> (part: Option<&TokenReference<'a>>)
        ensures
            match part {
                Some(part) => self@ is Basic && part@ == self@->Basic_0,
                None => !(self@ is Basic),
            },
    {
        match self {
            IndexedTypeInfo::Basic(token) => Some(token),
            _ => None,
        }
    }

    /// Of a type with parameters, the base. Nothing for any other variant.
    pub fn generic_base(&self) -> (part: Option<&TokenReference<'a>>)
        ensures
            match part {
                Some(part) => self@ is Generic && part@ == self@->Generic_base,
                None => !(self@ is Generic),
            },
    {
        match self {
            IndexedTypeInfo::Generic { base, .. } => Some(base),
            _ => None,
        }
    }

    /// Of a type with parameters, the angle brackets. Nothing for any other variant.
    pub fn generic_arrows(&self) -> (part: Option<&ContainedSpan<'a>>)
        ensures
            match part {
                Some(part) => self@ is Generic && part@ == self@->Generic_arrows,
                None => !(self@ is Generic),
            },
    {
        match self {
            IndexedTypeInfo::Generic { arrows, .. } => Some(arrows),
            _ => None,
        }
    }

    /// Of a type with parameters, the parameters. Nothing for any other variant.
    pub fn generic_generics(&self) -> (part: Option<&Punctuated<'a, TypeInfo<'a>>>)
        ensures
            match part {
                Some(part) => self@ is Generic
                    && type_info_pairs_view(part) == self@->Generic_generics,
                None => !(self@ is Generic),
            },
    {
        match self {
            IndexedTypeInfo::Generic { generics, .. } => Some(generics),
            _ => None,
        }
    }

    /// If this is a type that is a single name: the same node with
    /// the token replaced and the rest as it was.
    /// Any other variant comes back unchanged.
    pub fn with_basic_token(self, token: TokenReference<'a>) -> (node: Self)
        ensures
            node@ == (match self@ {
                IndexedTypeInfoView::Basic(_) => IndexedTypeInfoView::Basic(token@),
                other => other,
            }),
            self@.well_formed() ==> node@.well_formed(),
    {
        match self {
            IndexedTypeInfo::Basic(_) => IndexedTypeInfo::Basic(token),
            other => other,
        }
    }

    /// If this is a type with parameters: the same node with
    /// the base replaced and the rest as it was.
    /// Any other variant comes back unchanged.
    pub fn with_generic_base(self, base: TokenReference<'a>) -> (node: Self)
        ensures
            node@ == (match self@ {
                IndexedTypeInfoView::Generic { base: _, arrows, generics } =>
                    IndexedTypeInfoView::Generic { base: base@, arrows, generics },
                other => other,
            }),
            self@.well_formed() ==> node@.well_formed(),
    {
        match self {
            IndexedTypeInfo::Generic { arrows, generics, .. } =>
                IndexedTypeInfo::Generic { base, arrows, generics },
            other => other,
        }
    }

    /// If this is a type with parameters: the same node with
    /// the angle brackets replaced and the rest as it was.
    /// Any other variant comes back unchanged.
    pub fn with_generic_arrows(self, arrows: ContainedSpan<'a>) -> (node: Self)
        ensures
            node@ == (match self@ {
                IndexedTypeInfoView::Generic { base, arrows: _, generics } =>
                    IndexedTypeInfoView::Generic { base, arrows: arrows@, generics },
                other => other,
            }),
            self@.well_formed()
                && arrows@.is_pair(Symbol::LessThan, Symbol::GreaterThan) ==> node@.well_formed(),
    {
        match self {
            IndexedTypeInfo::Generic { base, generics, .. } =>
                IndexedTypeInfo::Generic { base, arrows, generics },
            other => other,
        }
    }

    /// If this is a type with parameters: the same node with
    /// the parameters replaced and the rest as it was.
    /// Any other variant comes back unchanged.
    pub fn with_generic_generics(self, generics: Punctuated<'a, TypeInfo<'a>>) -> (node: Self)
        ensures
            node@ == (match self@ {
                IndexedTypeInfoView::Generic { base, arrows, generics: _ } =>
                    IndexedTypeInfoView::Generic {
                        base,
                        arrows,
                        generics: type_info_pairs_view(&generics),
                    },
                other => other,
            }),
            self@.well_formed()
                && type_info_pairs_well_formed(type_info_pairs_view(&generics)) ==>
                    node@.well_formed(),
    {
        match self {
            IndexedTypeInfo::Generic { base, arrows, .. } =>
                IndexedTypeInfo::Generic { base, arrows, generics },
            other => other,
        }
    }
}

impl<'a> TypeFieldKey<'a> {
    /// Of a key that is a name, the token. Nothing for any other variant.
    pub fn name_token(&self) -> (part: Option<&TokenReference<'a>>)
        ensures
            match part {
                Some(part) => self@ is Name && part@ == self@->Name_0,
                None => !(self@ is Name),
            },
    {
        match self {
            TypeFieldKey::Name(token) => Some(token),
            _ => None,
        }
    }

    /// Of a key that is the type of an index, the brackets. Nothing for any other variant.
    pub fn index_signature_brackets(&self) -> (part: Option<&ContainedSpan<'a>>)
        ensures
            match part {
                Some(part) => self@ is IndexSignature && part@ == self@->IndexSignature_brackets,
                None => !(self@ is IndexSignature),
            },
    {
        match self {
            TypeFieldKey::IndexSignature { brackets, .. } => Some(brackets),
            _ => None,
        }
    }

    /// Of a key that is the type of an index, what stands inside. Nothing for any other variant.
    pub fn index_signature_inner(&self) -> (part: Option<&TypeInfo<'a>>)
        ensures
            match part {
                Some(part) => self@ is IndexSignature && part@ == self@->IndexSignature_inner,
                None => !(self@ is IndexSignature),
            },
    {
        match self {
            TypeFieldKey::IndexSignature { inner, .. } => Some(inner),
            _ => None,
        }
    }

    /// If this is a key that is a name: the same node with
    /// the token replaced and the rest as it was.
    /// Any other variant comes back unchanged.
    pub fn with_name_token(self, token: TokenReference<'a>) -> (node: Self)
        ensures
            node@ == (match self@ {
                TypeFieldKeyView::Name(_) => TypeFieldKeyView::Name(token@),
                other => other,
            }),
            self@.well_formed() ==> node@.well_formed(),
    {
        match self {
            TypeFieldKey::Name(_) => TypeFieldKey::Name(token),
            other => other,
        }
    }

    /// If this is a key that is the type of an index: the same node with
    /// the brackets replaced and the rest as it was.
    /// Any other variant comes back unchanged.
    pub fn with_index_signature_brackets(self, brackets: ContainedSpan<'a>) -> (node: Self)
        ensures
            node@ == (match self@ {
                TypeFieldKeyView::IndexSignature { brackets: _, inner } =>
                    TypeFieldKeyView::IndexSignature { brackets: brackets@, inner },
                other => other,
            }),
            self@.well_formed()
                && brackets@.is_pair(Symbol::LeftBracket, Symbol::RightBracket) ==>
                    node@.well_formed(),
    {
        match self {
            TypeFieldKey::IndexSignature { inner, .. } =>
                TypeFieldKey::IndexSignature { brackets, inner },
            other => other,
        }
    }

    /// If this is a key that is the type of an index: the same node with
    /// what stands inside replaced and the rest as it was.
    /// Any other variant comes back unchanged.
    pub fn with_index_signature_inner(self, inner: TypeInfo<'a>) -> (node: Self)
        ensures
            node@ == (match self@ {
                TypeFieldKeyView::IndexSignature { brackets, inner: _ } =>
                    TypeFieldKeyView::IndexSignature { brackets, inner: inner@ },
                other => other,
            }),
            self@.well_formed() && inner@.well_formed() ==> node@.well_formed(),
    {
        match self {
            TypeFieldKey::IndexSignature { brackets, .. } =>
                TypeFieldKey::IndexSignature { brackets, inner },
            other => other,
        }
    }
}

impl<'a> CompoundOp<'a> {
    /// The same operator written with another token.
    pub fn with_token(self, token: TokenReference<'a>) -> (node: Self)
        ensures
            node@ == (match self@ {
                CompoundOpView::PlusEqual(_) => CompoundOpView::PlusEqual(token@),
                CompoundOpView::MinusEqual(_) => CompoundOpView::MinusEqual(token@),
                CompoundOpView::StarEqual(_) => CompoundOpView::StarEqual(token@),
                CompoundOpView::SlashEqual(_) => CompoundOpView::SlashEqual(token@),
                CompoundOpView::PercentEqual(_) => CompoundOpView::PercentEqual(token@),
                CompoundOpView::CaretEqual(_) => CompoundOpView::CaretEqual(token@),
                CompoundOpView::TwoDotsEqual(_) => CompoundOpView::TwoDotsEqual(token@),
            }),
    {
        match self {
            CompoundOp::PlusEqual(_) => CompoundOp::PlusEqual(token),
            CompoundOp::MinusEqual(_) => CompoundOp::MinusEqual(token),
            CompoundOp::StarEqual(_) => CompoundOp::StarEqual(token),
            CompoundOp::SlashEqual(_) => CompoundOp::SlashEqual(token),
            CompoundOp::PercentEqual(_) => CompoundOp::PercentEqual(token),
            CompoundOp::CaretEqual(_) => CompoundOp::CaretEqual(token),
            CompoundOp::TwoDotsEqual(_) => CompoundOp::TwoDotsEqual(token),
        }
    }
}

} // verus!
