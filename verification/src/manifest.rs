//! The package manifest: which products a package offers, and which of them
//! are executables.
//!
//! The build toolchain prints the manifest as JSON. A manifest is an object
//! with a member `products`, an array; each product is an object with a
//! member `name`, a string, and a member `type`, an object with exactly one
//! member whose name tells the kind of the product and whose value is not
//! read. Where a JSON object repeats a name, the JSON reader keeps the last
//! value under that name only, so a repeated member counts once.

use vstd::prelude::*;
use crate::backend::SPMBackend;
use crate::error::{InstallError, InstallErrorView};
use crate::json::{
    json_document, lemma_array_view, lemma_object_view, member_views, parse_json, Json, JsonView,
};
use crate::text::{decimal, push_decimal, same_text, texts};

verus! {

/// The kind of a product.
#[derive(Clone, Copy, Debug, PartialEq, Eq, Structural)]
pub enum PackageDescriptionProductType {
    Executable,
    Other,
}

impl PackageDescriptionProductType {
    pub fn is_executable(&self) -> (r: bool)
        ensures
            r == (*self is Executable),
    {
        match self {
            PackageDescriptionProductType::Executable => true,
            PackageDescriptionProductType::Other => false,
        }
    }

    /// Reads the kind of a product from the value of its `type` member.
    ///
    /// The value is an object with exactly one member. The member named
    /// `executable` stands for an executable, any other name for another
    /// kind; the member's value is not read. Anything else is malformed.
    pub fn deserialize_product_type_field(value: &Json) -> (r: Option<
        PackageDescriptionProductType,
    >)
        ensures
            r == product_type(value@),
    {
        match value {
            Json::Object(members) => {
                proof {
                    lemma_object_view(*members);
                }
                if members.len() == 1 {
                    if same_text(members[0].0.as_str(), "executable") {
                        Some(PackageDescriptionProductType::Executable)
                    } else {
                        Some(PackageDescriptionProductType::Other)
                    }
                } else {
                    None
                }
            },
            _ => None,
        }
    }
}

/// One product of a package.
#[derive(Debug, PartialEq, Eq)]
pub struct PackageDescriptionProduct {
    pub name: String,
    pub kind: PackageDescriptionProductType,
}

/// The mathematical view of [`PackageDescriptionProduct`]: the same value
/// over sequences of characters.
pub struct ProductView {
    pub name: Seq<char>,
    pub kind: PackageDescriptionProductType,
}

impl View for PackageDescriptionProduct {
    type V = ProductView;

    open spec fn view(&self) -> ProductView {
        ProductView { name: self.name@, kind: self.kind }
    }
}

/// The products of a package, in the order of the manifest.
#[derive(Debug, PartialEq, Eq)]
pub struct PackageDescription {
    pub products: Vec<PackageDescriptionProduct>,
}

impl View for PackageDescription {
    type V = Seq<ProductView>;

    open spec fn view(&self) -> Seq<ProductView> {
        product_views(self.products@)
    }
}

/// The views of the products, in order.
pub open spec fn product_views(products: Seq<PackageDescriptionProduct>) -> Seq<ProductView> {
    Seq::new(products.len(), |i: int| products[i]@)
}

/// Why a text is not a manifest. `index` counts the products from 0.
#[derive(Debug, PartialEq, Eq)]
pub enum ManifestDecodeError {
    /// The text is not JSON; `message` is the parser's.
    Syntax { message: String },
    /// The document is not an object.
    RootNotObject,
    /// The document has no member `products`.
    MissingProducts,
    /// The member `products` is not an array.
    ProductsNotArray,
    /// A product is not an object.
    ProductNotObject { index: usize },
    /// A product has no member `name`.
    MissingName { index: usize },
    /// The member `name` of a product is not a string.
    NameNotText { index: usize },
    /// A product has no member `type`.
    MissingType { index: usize },
    /// The member `type` of a product is not an object with one member.
    MalformedType { index: usize },
}

/// The mathematical view of [`ManifestDecodeError`]: the same value over
/// sequences of characters.
pub enum ManifestDecodeErrorView {
    Syntax { message: Seq<char> },
    RootNotObject,
    MissingProducts,
    ProductsNotArray,
    ProductNotObject { index: usize },
    MissingName { index: usize },
    NameNotText { index: usize },
    MissingType { index: usize },
    MalformedType { index: usize },
}

impl View for ManifestDecodeError {
    type V = ManifestDecodeErrorView;

    open spec fn view(&self) -> ManifestDecodeErrorView {
        match self {
            ManifestDecodeError::Syntax { message } => ManifestDecodeErrorView::Syntax {
                message: message@,
            },
            ManifestDecodeError::RootNotObject => ManifestDecodeErrorView::RootNotObject,
            ManifestDecodeError::MissingProducts => ManifestDecodeErrorView::MissingProducts,
            ManifestDecodeError::ProductsNotArray => ManifestDecodeErrorView::ProductsNotArray,
            ManifestDecodeError::ProductNotObject { index } => {
                ManifestDecodeErrorView::ProductNotObject { index: *index }
            },
            ManifestDecodeError::MissingName { index } => ManifestDecodeErrorView::MissingName {
                index: *index,
            },
            ManifestDecodeError::NameNotText { index } => ManifestDecodeErrorView::NameNotText {
                index: *index,
            },
            ManifestDecodeError::MissingType { index } => ManifestDecodeErrorView::MissingType {
                index: *index,
            },
            ManifestDecodeError::MalformedType { index } => ManifestDecodeErrorView::MalformedType {
                index: *index,
            },
        }
    }
}

/// What is wrong with the product at `index`: `product `, the index in
/// decimal, `: ` and the fault.
pub open spec fn product_fault(index: usize, fault: Seq<char>) -> Seq<char> {
    "product "@ + decimal(index as nat) + ": "@ + fault
}

/// The message of an error.
pub open spec fn decode_message(error: ManifestDecodeErrorView) -> Seq<char> {
    match error {
        ManifestDecodeErrorView::Syntax { message } => message,
        ManifestDecodeErrorView::RootNotObject => "the description is not a map"@,
        ManifestDecodeErrorView::MissingProducts => "missing field `products`"@,
        ManifestDecodeErrorView::ProductsNotArray => "`products` is not a sequence"@,
        ManifestDecodeErrorView::ProductNotObject { index } => product_fault(
            index,
            "not a map"@,
        ),
        ManifestDecodeErrorView::MissingName { index } => product_fault(
            index,
            "missing field `name`"@,
        ),
        ManifestDecodeErrorView::NameNotText { index } => product_fault(
            index,
            "`name` is not a string"@,
        ),
        ManifestDecodeErrorView::MissingType { index } => product_fault(
            index,
            "missing field `type`"@,
        ),
        ManifestDecodeErrorView::MalformedType { index } => product_fault(
            index,
            "`type` is not a map with a key 'executable' or other types"@,
        ),
    }
}

/// What is wrong with the product at `index`.
fn fault_at(index: usize, fault: &str) -> (r: String)
    ensures
        r@ == product_fault(index, fault@),
{
    let mut out = "product ".to_owned();
    push_decimal(&mut out, index as u64);
    out.append(": ");
    out.append(fault);
    out
}

impl ManifestDecodeError {
    /// The message of the error, for the user.
    pub fn message(&self) -> (r: String)
        ensures
            r@ == decode_message(self@),
    {
        match self {
            ManifestDecodeError::Syntax { message } => message.clone(),
            ManifestDecodeError::RootNotObject => "the description is not a map".to_owned(),
            ManifestDecodeError::MissingProducts => "missing field `products`".to_owned(),
            ManifestDecodeError::ProductsNotArray => "`products` is not a sequence".to_owned(),
            ManifestDecodeError::ProductNotObject { index } => fault_at(*index, "not a map"),
            ManifestDecodeError::MissingName { index } => fault_at(
                *index,
                "missing field `name`",
            ),
            ManifestDecodeError::NameNotText { index } => fault_at(
                *index,
                "`name` is not a string",
            ),
            ManifestDecodeError::MissingType { index } => fault_at(
                *index,
                "missing field `type`",
            ),
            ManifestDecodeError::MalformedType { index } => fault_at(
                *index,
                "`type` is not a map with a key 'executable' or other types",
            ),
        }
    }
}

/// The value of the first member named `key` among `members[from..]`.
pub open spec fn member(members: Seq<(Seq<char>, JsonView)>, key: Seq<char>, from: int) -> Option<
    JsonView,
>
    decreases members.len() - from,
{
    if from < 0 || from >= members.len() {
        None
    } else if members[from].0 == key {
        Some(members[from].1)
    } else {
        member(members, key, from + 1)
    }
}

/// The kind that the value of a `type` member stands for.
pub open spec fn product_type(value: JsonView) -> Option<PackageDescriptionProductType> {
    match value {
        JsonView::Object(members) => if members.len() == 1 {
            if members[0].0 == "executable"@ {
                Some(PackageDescriptionProductType::Executable)
            } else {
                Some(PackageDescriptionProductType::Other)
            }
        } else {
            None
        },
        _ => None,
    }
}

/// The product that the entry at `index` of the array `products` holds.
pub open spec fn product(value: JsonView, index: usize) -> Result<
    ProductView,
    ManifestDecodeErrorView,
> {
    match value {
        JsonView::Object(members) => match member(members, "name"@, 0) {
            None => Err(ManifestDecodeErrorView::MissingName { index }),
            Some(JsonView::Text(name)) => match member(members, "type"@, 0) {
                None => Err(ManifestDecodeErrorView::MissingType { index }),
                Some(field) => match product_type(field) {
                    None => Err(ManifestDecodeErrorView::MalformedType { index }),
                    Some(kind) => Ok(ProductView { name, kind }),
                },
            },
            Some(_) => Err(ManifestDecodeErrorView::NameNotText { index }),
        },
        _ => Err(ManifestDecodeErrorView::ProductNotObject { index }),
    }
}

/// The products that the entries of the array hold, or what is wrong with
/// the first entry that holds none.
pub open spec fn products(items: Seq<JsonView>) -> Result<Seq<ProductView>, ManifestDecodeErrorView>
    decreases items.len(),
{
    if items.len() == 0 {
        Ok(Seq::empty())
    } else {
        match products(items.drop_last()) {
            Err(error) => Err(error),
            Ok(before) => match product(items.last(), (items.len() - 1) as usize) {
                Err(error) => Err(error),
                Ok(last) => Ok(before.push(last)),
            },
        }
    }
}

/// The manifest that a document holds.
pub open spec fn manifest(document: JsonView) -> Result<Seq<ProductView>, ManifestDecodeErrorView> {
    match document {
        JsonView::Object(members) => match member(members, "products"@, 0) {
            None => Err(ManifestDecodeErrorView::MissingProducts),
            Some(JsonView::Array(items)) => products(items),
            Some(_) => Err(ManifestDecodeErrorView::ProductsNotArray),
        },
        _ => Err(ManifestDecodeErrorView::RootNotObject),
    }
}

/// The manifest that the outcome of reading a text holds.
pub open spec fn manifest_of(parsed: Result<JsonView, Seq<char>>) -> Result<
    Seq<ProductView>,
    ManifestDecodeErrorView,
> {
    match parsed {
        Err(message) => Err(ManifestDecodeErrorView::Syntax { message }),
        Ok(document) => manifest(document),
    }
}

/// The names of the executables among the products, in order.
pub open spec fn executable_names(products: Seq<ProductView>) -> Seq<Seq<char>> {
    products.filter_map(
        |p: ProductView|
            if p.kind is Executable {
                Some(p.name)
            } else {
                None
            },
    )
}

/// The kind of a product is read from the name of the only member of its
/// `type`; the value of that member is not read, whatever it is.
pub proof fn lemma_kind_value_is_not_read(name: Seq<char>, value: JsonView, other: JsonView)
    ensures
        product_type(JsonView::Object(seq![(name, value)])) == product_type(
            JsonView::Object(seq![(name, other)]),
        ),
        product_type(JsonView::Object(seq![(name, value)])) == Some(
            if name == "executable"@ {
                PackageDescriptionProductType::Executable
            } else {
                PackageDescriptionProductType::Other
            },
        ),
{
}

/// An error among the first entries of an array is the error of the array.
pub proof fn lemma_products_prefix_error(items: Seq<JsonView>, n: int)
    requires
        0 <= n <= items.len(),
        products(items.take(n)) is Err,
    ensures
        products(items) == products(items.take(n)),
    decreases items.len() - n,
{
    if n < items.len() {
        assert(items.take(n + 1).drop_last() =~= items.take(n));
        lemma_products_prefix_error(items, n + 1);
    } else {
        assert(items.take(n) =~= items);
    }
}

/// The first member of an object that is named `key`.
fn find_member<'a>(members: &'a Vec<(String, Json)>, key: &str) -> (r: Option<&'a Json>)
    ensures
        match r {
            Some(value) => member(member_views(members@), key@, 0) == Some(value@),
            None => member(member_views(members@), key@, 0) is None,
        },
{
    let n: usize = members.len();
    let mut i: usize = 0;
    while i < n
        invariant
            i <= n == members@.len(),
            member(member_views(members@), key@, 0) == member(
                member_views(members@),
                key@,
                i as int,
            ),
        decreases n - i,
    {
        if same_text(members[i].0.as_str(), key) {
            return Some(&members[i].1);
        }
        i += 1;
    }
    None
}

/// Reads one product from the entry at `index` of the array `products`.
fn decode_product(value: &Json, index: usize) -> (r: Result<
    PackageDescriptionProduct,
    ManifestDecodeError,
>)
    ensures
        match r {
            Ok(p) => product(value@, index) == Ok::<ProductView, ManifestDecodeErrorView>(p@),
            Err(e) => product(value@, index) == Err::<ProductView, ManifestDecodeErrorView>(e@),
        },
{
    match value {
        Json::Object(members) => {
            proof {
                lemma_object_view(*members);
            }
            match find_member(members, "name") {
                None => Err(ManifestDecodeError::MissingName { index }),
                Some(Json::Text(name)) => match find_member(members, "type") {
                    None => Err(ManifestDecodeError::MissingType { index }),
                    Some(field) => {
                        match PackageDescriptionProductType::deserialize_product_type_field(field) {
                            None => Err(ManifestDecodeError::MalformedType { index }),
                            Some(kind) => Ok(
                                PackageDescriptionProduct { name: name.clone(), kind },
                            ),
                        }
                    },
                },
                Some(_) => Err(ManifestDecodeError::NameNotText { index }),
            }
        },
        _ => Err(ManifestDecodeError::ProductNotObject { index }),
    }
}

/// Reads a manifest from a document.
///
/// Succeeds exactly on a document of the shape that the head of this module
/// describes, with the products in the order of the array. Otherwise the
/// error names the first thing that is wrong: of the document, then of the
/// products in order, of each product its `name` before its `type`.
pub fn decode_manifest(document: &Json) -> (r: Result<PackageDescription, ManifestDecodeError>)
    ensures
        match r {
            Ok(m) => manifest(document@) == Ok::<Seq<ProductView>, ManifestDecodeErrorView>(m@),
            Err(e) => manifest(document@) == Err::<Seq<ProductView>, ManifestDecodeErrorView>(e@),
        },
{
    match document {
        Json::Object(members) => {
            proof {
                lemma_object_view(*members);
            }
            match find_member(members, "products") {
                None => Err(ManifestDecodeError::MissingProducts),
                Some(Json::Array(items)) => {
                    proof {
                        lemma_array_view(*items);
                    }
                    let ghost views = Json::Array(*items)@->Array_0;
                    let mut found: Vec<PackageDescriptionProduct> = Vec::new();
                    let n: usize = items.len();
                    let mut i: usize = 0;
                    assert(views.take(0) =~= Seq::empty());
                    assert(product_views(found@) =~= Seq::empty());
                    while i < n
                        invariant
                            i <= n == items@.len(),
                            manifest(document@) == products(views),
                            views == crate::json::item_views(items@),
                            products(views.take(i as int)) == Ok::<
                                Seq<ProductView>,
                                ManifestDecodeErrorView,
                            >(product_views(found@)),
                        decreases n - i,
                    {
                        proof {
                            assert(views.take(i + 1).drop_last() =~= views.take(i as int));
                            assert(views.take(i + 1).last() == items@[i as int]@);
                        }
                        match decode_product(&items[i], i) {
                            Err(error) => {
                                proof {
                                    lemma_products_prefix_error(views, i + 1);
                                }
                                return Err(error);
                            },
                            Ok(p) => {
                                let ghost before = product_views(found@);
                                found.push(p);
                                assert(product_views(found@) =~= before.push(p@));
                            },
                        }
                        i += 1;
                    }
                    assert(views.take(n as int) =~= views);
                    Ok(PackageDescription { products: found })
                },
                Some(_) => Err(ManifestDecodeError::ProductsNotArray),
            }
        },
        _ => Err(ManifestDecodeError::RootNotObject),
    }
}

/// The names of the executables among the products of a manifest, in the
/// order of the manifest.
pub fn executables_of(description: &PackageDescription) -> (names: Vec<String>)
    ensures
        texts(names@) == executable_names(description@),
{
    let mut names: Vec<String> = Vec::new();
    let n: usize = description.products.len();
    let mut i: usize = 0;
    assert(description@.take(0) =~= Seq::empty());
    while i < n
        invariant
            i <= n == description.products@.len(),
            texts(names@) == executable_names(description@.take(i as int)),
        decreases n - i,
    {
        let p = &description.products[i];
        proof {
            assert(description@.take(i + 1).drop_last() =~= description@.take(i as int));
            assert(description@.take(i + 1).last() == p@);
        }
        if p.kind.is_executable() {
            let ghost before = texts(names@);
            names.push(p.name.clone());
            assert(texts(names@) =~= before + seq![p@.name]);
        }
        i += 1;
    }
    assert(description@.take(n as int) =~= description@);
    names
}

/// What reading the manifest comes to: the names of the executables, in the
/// order of the manifest. A manifest that could not be read is a failure,
/// and so is a package without executables.
pub open spec fn executables_found(
    found: Result<Seq<ProductView>, ManifestDecodeErrorView>,
) -> Result<Seq<Seq<char>>, InstallErrorView> {
    match found {
        Err(error) => Err(InstallErrorView::ManifestDecodeError(error)),
        Ok(products) => if executable_names(products).len() == 0 {
            Err(InstallErrorView::NoExecutablesFound)
        } else {
            Ok(executable_names(products))
        },
    }
}

impl SPMBackend {
    /// Reads the manifest that the toolchain printed and returns the names
    /// of its executables, in the order of the manifest.
    ///
    /// Fails with `ManifestDecodeError` where the text is not JSON or the
    /// document is no manifest, and with `NoExecutablesFound` where the
    /// manifest names no executable. The list returned is never empty.
    pub fn get_executable_names(package_json: &str) -> (r: Result<Vec<String>, InstallError>)
        ensures
            match r {
                Ok(names) => executables_found(manifest_of(json_document(package_json@)))
                    == Ok::<Seq<Seq<char>>, InstallErrorView>(texts(names@)),
                Err(error) => executables_found(manifest_of(json_document(package_json@)))
                    == Err::<Seq<Seq<char>>, InstallErrorView>(error@),
            },
    {
        match parse_json(package_json) {
            Err(message) => Err(
                InstallError::ManifestDecodeError(ManifestDecodeError::Syntax { message }),
            ),
            Ok(document) => match decode_manifest(&document) {
                Err(error) => Err(InstallError::ManifestDecodeError(error)),
                Ok(description) => {
                    let names = executables_of(&description);
                    if names.len() == 0 {
                        Err(InstallError::NoExecutablesFound)
                    } else {
                        Ok(names)
                    }
                },
            },
        }
    }
}

} // verus!
