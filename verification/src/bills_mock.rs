//! A stand-in catalogue of bill providers, products and form fields.

use crate::text::same_text;
use vstd::prelude::*;
use vstd::string::*;

verus! {

/// A provider of a bill service.
pub struct BillProvider {
    pub code: &'static str,
    pub name: &'static str,
}

/// A product of a provider (price in kobo).
pub struct BillProduct {
    pub code: &'static str,
    pub name: &'static str,
    pub price: i64,
}

/// A choice of a select field.
pub struct FieldOption {
    pub code: String,
    pub name: String,
}

/// A field of the payment form of a service.
pub struct FormFieldSpec {
    pub key: String,
    pub label: String,
    pub required: bool,
    pub field_type: String,
    pub options: Option<Vec<FieldOption>>,
}

/// `p` is the provider with this code and name.
pub open spec fn provider_is(p: BillProvider, code: Seq<char>, name: Seq<char>) -> bool {
    p.code@ == code && p.name@ == name
}

/// The providers of a service: cable TV and electricity have three each.
pub fn get_mock_providers(service: &str) -> (r: Vec<BillProvider>)
    ensures
        service@ == "cable"@ ==> r@.len() == 3 && provider_is(r@[0], "dstv"@, "DStv"@)
            && provider_is(r@[1], "gotv"@, "GOtv"@) && provider_is(
            r@[2],
            "startimes"@,
            "StarTimes"@,
        ),
        service@ == "electricity"@ ==> r@.len() == 3 && provider_is(
            r@[0],
            "ikedc"@,
            "Ikeja Electric"@,
        ) && provider_is(r@[1], "ekedc"@, "Eko Electric"@) && provider_is(
            r@[2],
            "aedc"@,
            "Abuja Electric"@,
        ),
        service@ != "cable"@ && service@ != "electricity"@ ==> r@.len() == 0,
{
    proof {
        reveal_strlit("cable");
        reveal_strlit("electricity");
        assert("cable"@.len() != "electricity"@.len());
    }
    let mut v: Vec<BillProvider> = Vec::new();
    if same_text(service, "cable") {
        v.push(BillProvider { code: "dstv", name: "DStv" });
        v.push(BillProvider { code: "gotv", name: "GOtv" });
        v.push(BillProvider { code: "startimes", name: "StarTimes" });
    } else if same_text(service, "electricity") {
        v.push(BillProvider { code: "ikedc", name: "Ikeja Electric" });
        v.push(BillProvider { code: "ekedc", name: "Eko Electric" });
        v.push(BillProvider { code: "aedc", name: "Abuja Electric" });
    }
    v
}

/// `p` is the product with this code, name and price.
pub open spec fn product_is(p: BillProduct, code: Seq<char>, name: Seq<char>, price: i64) -> bool {
    p.code@ == code && p.name@ == name && p.price == price
}

/// The products of a provider: only DStv has bouquets.
pub fn get_mock_products(provider: &str) -> (r: Vec<BillProduct>)
    ensures
        provider@ == "dstv"@ ==> r@.len() == 3 && product_is(
            r@[0],
            "dstv-padi"@,
            "DStv Padi"@,
            250000,
        ) && product_is(r@[1], "dstv-yanga"@, "DStv Yanga"@, 400000) && product_is(
            r@[2],
            "dstv-premium"@,
            "DStv Premium"@,
            2100000,
        ),
        provider@ != "dstv"@ ==> r@.len() == 0,
{
    let mut v: Vec<BillProduct> = Vec::new();
    if same_text(provider, "dstv") {
        v.push(BillProduct { code: "dstv-padi", name: "DStv Padi", price: 250000 });
        v.push(BillProduct { code: "dstv-yanga", name: "DStv Yanga", price: 400000 });
        v.push(BillProduct { code: "dstv-premium", name: "DStv Premium", price: 2100000 });
    }
    v
}

/// `f` is the form field with these properties.
pub open spec fn field_is(
    f: FormFieldSpec,
    key: Seq<char>,
    label: Seq<char>,
    required: bool,
    field_type: Seq<char>,
) -> bool {
    f.key@ == key && f.label@ == label && f.required == required && f.field_type@ == field_type
}

fn field(key: &str, label: &str, field_type: &str, options: Option<Vec<FieldOption>>) -> (f:
    FormFieldSpec)
    ensures
        field_is(f, key@, label@, true, field_type@),
        f.options == options,
{
    FormFieldSpec {
        key: String::from_str(key),
        label: String::from_str(label),
        required: true,
        field_type: String::from_str(field_type),
        options,
    }
}

/// The form of a service: a smartcard number for cable TV; a meter number
/// and a prepaid/postpaid meter type for electricity.
pub fn get_mock_schema(service: &str, _provider: &str) -> (r: Vec<FormFieldSpec>)
    ensures
        service@ == "cable"@ ==> r@.len() == 1 && field_is(
            r@[0],
            "smartcard"@,
            "Smartcard Number"@,
            true,
            "text"@,
        ) && r@[0].options is None,
        service@ == "electricity"@ ==> r@.len() == 2 && field_is(
            r@[0],
            "meter_number"@,
            "Meter Number"@,
            true,
            "text"@,
        ) && r@[0].options is None && field_is(
            r@[1],
            "meter_type"@,
            "Meter Type"@,
            true,
            "select"@,
        ) && (r@[1].options matches Some(o) && o@.len() == 2 && o@[0].code@ == "prepaid"@
            && o@[0].name@ == "Prepaid"@ && o@[1].code@ == "postpaid"@ && o@[1].name@
            == "Postpaid"@),
        service@ != "cable"@ && service@ != "electricity"@ ==> r@.len() == 0,
{
    proof {
        reveal_strlit("cable");
        reveal_strlit("electricity");
        assert("cable"@.len() != "electricity"@.len());
    }
    let mut v: Vec<FormFieldSpec> = Vec::new();
    if same_text(service, "cable") {
        v.push(field("smartcard", "Smartcard Number", "text", None));
    } else if same_text(service, "electricity") {
        v.push(field("meter_number", "Meter Number", "text", None));
        let mut options: Vec<FieldOption> = Vec::new();
        options.push(
            FieldOption { code: String::from_str("prepaid"), name: String::from_str("Prepaid") },
        );
        options.push(
            FieldOption { code: String::from_str("postpaid"), name: String::from_str("Postpaid") },
        );
        v.push(field("meter_type", "Meter Type", "select", Some(options)));
    }
    v
}

} // verus!
