//! The function classifier: from what a declaration says about itself
//! (attributes, receiver, visibility, return shape, enclosing block) to the
//! facets of its record.
use crate::calls::strings_view;
use crate::function_info::{FunctionInfo, FunctionInfoV};
use vstd::prelude::*;

verus! {

/// How a method takes `self`.
#[derive(Debug, Clone, Copy, PartialEq, Eq)]
pub struct Receiver {
    /// `&self` or `&mut self`
    pub reference: bool,
    /// `mut self` or `&mut self`
    pub mutability: bool,
}

/// The category of a method.
#[derive(Debug, Clone, Copy, PartialEq, Eq)]
pub enum MethodType {
    Regular,
    View,
    Init,
}

/// What the attributes and the signature of a function say.
#[derive(Debug)]
pub struct AttrSigInfo {
    pub ident: String,
    pub method_type: MethodType,
    /// Marked as accepting an attached value
    pub is_payable: bool,
    /// Marked as callable by the contract alone
    pub is_private: bool,
    pub receiver: Option<Receiver>,
    /// Whether the signature declares a return type
    pub returns_value: bool,
}

/// Whether `s` is one of `names`.
pub open spec fn listed(names: Seq<Seq<char>>, s: Seq<char>) -> bool {
    names.contains(s)
}

/// The category of a function from its attributes and receiver: an
/// initializer when so marked, else a view when it cannot take `&mut self`
/// yet takes `self` in some form.
pub open spec fn method_type_of(attributes: Seq<Seq<char>>, receiver: Option<Receiver>) -> MethodType {
    if listed(attributes, "init"@) {
        MethodType::Init
    } else {
        match receiver {
            Some(r) => if !r.mutability || !r.reference {
                MethodType::View
            } else {
                MethodType::Regular
            },
            None => MethodType::Regular,
        }
    }
}

/// Whether a string is one of a list.
pub fn contains_text(names: &Vec<String>, s: &str) -> (r: bool)
    ensures
        r == listed(strings_view(names@), s@),
{
    let target = String::from_str(s);
    let mut i: usize = 0;
    while i < names.len()
        invariant
            i <= names.len(),
            target@ == s@,
            forall|k: int| 0 <= k < i ==> names@[k]@ != s@,
        decreases names.len() - i,
    {
        if names[i] == target {
            assert(strings_view(names@)[i as int] == s@);
            return true;
        }
        i = i + 1;
    }
    assert(!strings_view(names@).contains(s@)) by {
        if strings_view(names@).contains(s@) {
            let k = choose|k: int| 0 <= k < names@.len() && strings_view(names@)[k] == s@;
            assert(names@[k]@ == s@);
        }
    }
    false
}

impl AttrSigInfo {
    /// Reads the attributes (by path) and the signature of a function.
    pub fn new(
        ident: String,
        attributes: &Vec<String>,
        receiver: Option<Receiver>,
        returns_value: bool,
    ) -> (r: AttrSigInfo)
        ensures
            r.ident@ == ident@,
            r.method_type == method_type_of(strings_view(attributes@), receiver),
            r.is_payable == listed(strings_view(attributes@), "payable"@),
            r.is_private == listed(strings_view(attributes@), "private"@),
            r.receiver == receiver,
            r.returns_value == returns_value,
    {
        let is_init = contains_text(attributes, "init");
        let method_type = if is_init {
            MethodType::Init
        } else {
            match receiver {
                Some(r) => if !r.mutability || !r.reference {
                    MethodType::View
                } else {
                    MethodType::Regular
                },
                None => MethodType::Regular,
            }
        };
        AttrSigInfo {
            ident,
            method_type,
            is_payable: contains_text(attributes, "payable"),
            is_private: contains_text(attributes, "private"),
            receiver,
            returns_value,
        }
    }
}

/// The type that owns a method, as far as the classifier reads it.
#[derive(Debug)]
pub enum TypeInfo {
    /// A path type: whether it is qualified (`<T as Trait>::X`), whether it
    /// starts with `::`, and its segments
    Path(bool, bool, Vec<String>),
    /// Any other type
    Other,
}

/// Whether a path names the event marker type: a single segment
/// `NearEvent`, not anchored at the root.
pub open spec fn is_event_path(leading_colon: bool, segments: Seq<Seq<char>>) -> bool {
    !leading_colon && segments.len() == 1 && segments[0] == "NearEvent"@
}

/// Whether a type is the event marker type.
pub open spec fn is_event_type(ty: TypeInfo) -> bool {
    match ty {
        TypeInfo::Path(qself, leading_colon, segments) => !qself && is_event_path(
            leading_colon,
            strings_view(segments@),
        ),
        TypeInfo::Other => false,
    }
}

pub fn path_is_event(leading_colon: bool, segments: &Vec<String>) -> (r: bool)
    ensures
        r == is_event_path(leading_colon, strings_view(segments@)),
{
    if leading_colon || segments.len() != 1 {
        return false;
    }
    let marker = String::from_str("NearEvent");
    segments[0] == marker
}

pub fn type_is_event(ty: &TypeInfo) -> (r: bool)
    ensures
        r == is_event_type(*ty),
{
    match ty {
        TypeInfo::Path(qself, leading_colon, segments) => !*qself && path_is_event(
            *leading_colon,
            segments,
        ),
        TypeInfo::Other => false,
    }
}

/// Whether the attributes of an `impl` block mark it as exposed.
pub fn has_bindgen_attr(attributes: &Vec<String>) -> (r: bool)
    ensures
        r == listed(strings_view(attributes@), "near_bindgen"@),
{
    contains_text(attributes, "near_bindgen")
}

/// What is known of a method declared in an `impl` block.
#[derive(Debug)]
pub struct ImplItemMethodInfo {
    pub attr_signature_info: AttrSigInfo,
    /// Whether the method is declared `pub`
    pub is_public: bool,
    /// Whether the block implements a trait
    pub is_trait_impl: bool,
    /// Whether the block is marked as exposed
    pub has_near_sdk_attr: bool,
    /// The type the block is for
    pub struct_type: TypeInfo,
}

/// The record of a method.
///
/// A method outside every exposed block that is not an event method is
/// only recorded by name and return shape, as out of scope. Any other
/// method is public when declared so or when it implements a trait in an
/// exposed block; it mutates when it takes `&mut self`.
pub open spec fn method_info(m: ImplItemMethodInfo) -> FunctionInfoV {
    let sig = m.attr_signature_info;
    let is_event = is_event_type(m.struct_type);
    if !is_event && !m.has_near_sdk_attr {
        FunctionInfoV {
            name: sig.ident@,
            is_public: false,
            is_trait_impl: false,
            is_init: false,
            is_payable: false,
            is_view: false,
            is_mutable: false,
            is_process: !sig.returns_value,
            is_private_cccalls: false,
            is_out_of_contract_scope: true,
            is_event: false,
        }
    } else {
        FunctionInfoV {
            name: sig.ident@,
            is_public: m.is_public || (m.is_trait_impl && m.has_near_sdk_attr),
            is_trait_impl: m.is_trait_impl,
            is_init: sig.method_type == MethodType::Init,
            is_payable: sig.is_payable,
            is_view: sig.method_type == MethodType::View,
            is_mutable: match sig.receiver {
                Some(r) => r.reference && r.mutability,
                None => false,
            },
            is_process: !sig.returns_value,
            is_private_cccalls: sig.is_private,
            is_out_of_contract_scope: false,
            is_event,
        }
    }
}

impl ImplItemMethodInfo {
    pub fn new(
        attr_signature_info: AttrSigInfo,
        is_public: bool,
        is_trait_impl: bool,
        has_near_sdk_attr: bool,
        struct_type: TypeInfo,
    ) -> (r: Self)
        ensures
            r == (ImplItemMethodInfo {
                attr_signature_info,
                is_public,
                is_trait_impl,
                has_near_sdk_attr,
                struct_type,
            }),
    {
        ImplItemMethodInfo {
            attr_signature_info,
            is_public,
            is_trait_impl,
            has_near_sdk_attr,
            struct_type,
        }
    }

    /// Classifies the method.
    pub fn metadata_struct(&self) -> (r: FunctionInfo)
        ensures
            r@ == method_info(*self),
            r.inner_calls is None,
    {
        let sig = &self.attr_signature_info;
        let is_event = type_is_event(&self.struct_type);
        let mut info = FunctionInfo::named(sig.ident.clone());
        info.is_process = !sig.returns_value;
        if !is_event && !self.has_near_sdk_attr {
            info.is_out_of_contract_scope = true;
            return info;
        }
        info.is_public = self.is_public || (self.is_trait_impl && self.has_near_sdk_attr);
        info.is_trait_impl = self.is_trait_impl;
        info.is_init = match sig.method_type {
            MethodType::Init => true,
            _ => false,
        };
        info.is_payable = sig.is_payable;
        info.is_view = match sig.method_type {
            MethodType::View => true,
            _ => false,
        };
        info.is_mutable = match sig.receiver {
            Some(r) => r.reference && r.mutability,
            None => false,
        };
        info.is_private_cccalls = sig.is_private;
        info.is_event = is_event;
        info
    }
}

/// What is known of a free function.
#[derive(Debug)]
pub struct ItemFnInfo {
    pub attr_signature_info: AttrSigInfo,
    /// Whether the function is declared `pub`
    pub is_public: bool,
}

/// The record of a free function: out of scope, public when declared so.
pub open spec fn fn_info(f: ItemFnInfo) -> FunctionInfoV {
    let sig = f.attr_signature_info;
    FunctionInfoV {
        name: sig.ident@,
        is_public: f.is_public,
        is_trait_impl: false,
        is_init: false,
        is_payable: sig.is_payable,
        is_view: false,
        is_mutable: false,
        is_process: !sig.returns_value,
        is_private_cccalls: false,
        is_out_of_contract_scope: true,
        is_event: false,
    }
}

impl ItemFnInfo {
    pub fn new(attr_signature_info: AttrSigInfo, is_public: bool) -> (r: Self)
        ensures
            r == (ItemFnInfo { attr_signature_info, is_public }),
    {
        ItemFnInfo { attr_signature_info, is_public }
    }
}

/// Classifies a free function.
pub fn metadata_fn_struct(item: &ItemFnInfo) -> (r: FunctionInfo)
    ensures
        r@ == fn_info(*item),
        r.inner_calls is None,
{
    let sig = &item.attr_signature_info;
    let mut info = FunctionInfo::named(sig.ident.clone());
    info.is_public = item.is_public;
    info.is_payable = sig.is_payable;
    info.is_process = !sig.returns_value;
    info.is_out_of_contract_scope = true;
    info
}

/// Classifying a declaration depends on the declaration alone: two
/// classifications of equal declarations give equal records.
pub proof fn lemma_classification_idempotent(
    a: ImplItemMethodInfo,
    b: ImplItemMethodInfo,
    f: ItemFnInfo,
    g: ItemFnInfo,
)
    requires
        a == b,
        f == g,
    ensures
        method_info(a) == method_info(b),
        fn_info(f) == fn_info(g),
{
}

} // verus!
