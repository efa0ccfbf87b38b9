//! Declarations of enumerations, with their four body shapes.
use vstd::prelude::*;
use crate::ast::{BaseNode, Identifier, BooleanLiteral, NumericLiteral, StringLiteral};

verus! {

#[derive(Debug)]
pub struct EnumBooleanMember {
    pub base: BaseNode,
    pub id: Identifier,
    pub init: BooleanLiteral,
}

#[derive(Debug)]
pub struct EnumNumberMember {
    pub base: BaseNode,
    pub id: Identifier,
    pub init: NumericLiteral,
}

#[derive(Debug)]
pub struct EnumStringMember {
    pub base: BaseNode,
    pub id: Identifier,
    pub init: StringLiteral,
}

#[derive(Debug)]
pub struct EnumDefaultedMember {
    pub base: BaseNode,
    pub id: Identifier,
}

/// A member of a string body: initialized, or left to default to its name.
#[derive(Debug)]
pub enum EnumStringBodyMember {
    String(EnumStringMember),
    Defaulted(EnumDefaultedMember),
}

#[derive(Debug)]
pub struct EnumBooleanBody {
    pub base: BaseNode,
    pub members: Vec<EnumBooleanMember>,
    pub explicit_type: bool,
    pub has_unknown_members: bool,
}

#[derive(Debug)]
pub struct EnumNumberBody {
    pub base: BaseNode,
    pub members: Vec<EnumNumberMember>,
    pub explicit_type: bool,
    pub has_unknown_members: bool,
}

#[derive(Debug)]
pub struct EnumStringBody {
    pub base: BaseNode,
    pub members: Vec<EnumStringBodyMember>,
    pub explicit_type: bool,
    pub has_unknown_members: bool,
}

#[derive(Debug)]
pub struct EnumSymbolBody {
    pub base: BaseNode,
    pub members: Vec<EnumDefaultedMember>,
    pub has_unknown_members: bool,
}

#[derive(Debug)]
pub enum EnumBody {
    Boolean(EnumBooleanBody),
    Number(EnumNumberBody),
    String(EnumStringBody),
    Symbol(EnumSymbolBody),
}

#[derive(Debug)]
pub struct EnumDeclaration {
    pub base: BaseNode,
    pub id: Identifier,
    pub body: EnumBody,
}

} // verus!
