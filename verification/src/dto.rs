//! The bill-payment provider's messages (airtime, data, electricity, cable
//! TV and e-PINs), as plain data. Amounts are in minor units.

use vstd::prelude::*;
use vstd::string::*;

verus! {

/// The envelope every bill endpoint answers with.
pub struct PayscribeResponse<T> {
    pub status: bool,
    pub description: Option<String>,
    pub message: Option<T>,
    pub status_code: Option<i32>,
}

/// The bouquets of a cable TV service.
pub struct BouquetsMessage {
    pub details: Vec<BouquetItem>,
}

/// A cable TV bouquet.
pub struct BouquetItem {
    pub id: String,
    pub name: String,
    pub alias: Option<String>,
    pub amount: i64,
    /// Extra pricing rules some providers give, each as JSON text.
    pub price_options: Vec<String>,
}

/// The e-PIN products on offer.
pub struct EpinsMessage {
    pub details: Vec<EpinGroup>,
}

/// A group of e-PIN products.
pub struct EpinGroup {
    pub name: String,
    pub collection: Vec<EpinCollection>,
}

/// An e-PIN product.
pub struct EpinCollection {
    pub id: String,
    pub name: String,
    pub amount: i64,
    pub available: i64,
}

/// An order of e-PINs (`ref_` goes out as `ref`).
pub struct VendEpinRequest {
    pub qty: i64,
    pub id: String,
    pub ref_: Option<String>,
    pub account: Option<String>,
    pub phone: Option<String>,
}

/// A text field the order carries only when it is present.
pub open spec fn optional_field(key: Seq<char>, v: Option<String>) -> Seq<(Seq<char>, Seq<char>)> {
    match v {
        Some(s) => seq![(key, s@)],
        None => Seq::empty(),
    }
}

/// The text fields of an order as the provider reads them: `id`, then
/// `ref` (our reference), `account` and `phone` where present.
pub open spec fn epin_text_fields(r: VendEpinRequest) -> Seq<(Seq<char>, Seq<char>)> {
    seq![("id"@, r.id@)] + optional_field("ref"@, r.ref_) + optional_field("account"@, r.account)
        + optional_field("phone"@, r.phone)
}

/// The key and text of each field, as plain sequences.
pub open spec fn field_views(v: Seq<(String, String)>) -> Seq<(Seq<char>, Seq<char>)> {
    v.map_values(|p: (String, String)| (p.0@, p.1@))
}

fn push_optional(fields: &mut Vec<(String, String)>, key: &str, v: &Option<String>)
    ensures
        field_views(final(fields)@) == field_views(old(fields)@) + optional_field(key@, *v),
{
    let ghost before = fields@;
    if let Some(s) = v {
        fields.push((String::from_str(key), s.clone()));
        assert(field_views(fields@) =~= field_views(before) + optional_field(key@, *v));
    } else {
        assert(field_views(fields@) =~= field_views(before) + optional_field(key@, *v));
    }
}

impl VendEpinRequest {
    /// The text fields of the order on the wire (the quantity goes as the
    /// number `qty`).
    pub fn wire_fields(&self) -> (r: Vec<(String, String)>)
        ensures
            field_views(r@) == epin_text_fields(*self),
    {
        let mut fields: Vec<(String, String)> = Vec::new();
        fields.push((String::from_str("id"), self.id.clone()));
        assert(field_views(fields@) =~= seq![("id"@, self.id@)]);
        push_optional(&mut fields, "ref", &self.ref_);
        push_optional(&mut fields, "account", &self.account);
        push_optional(&mut fields, "phone", &self.phone);
        fields
    }
}

/// The answer to an e-PIN order.
pub struct VendEpinMessage {
    pub details: VendEpinDetails,
}

/// What an e-PIN order bought.
pub struct VendEpinDetails {
    pub trans_id: String,
    pub ref_: Option<String>,
    pub qty: i64,
    pub amount: i64,
    pub discount: i64,
    pub total_charge: i64,
    pub title: String,
    pub epins: Vec<VendedPin>,
}

/// One e-PIN sold.
pub struct VendedPin {
    pub name: String,
    pub pin: String,
    pub serial: String,
}

/// The answer to an airtime purchase.
pub struct AirtimeMessage {
    pub details: AirtimeDetails,
}

/// What an airtime purchase did.
pub struct AirtimeDetails {
    pub trans_id: String,
    pub ref_: Option<String>,
    pub network: String,
    pub amount: i64,
    pub phone_number: String,
    pub status: String,
}

/// The data plans on offer.
pub struct DataPlansMessage {
    pub details: Vec<DataPlan>,
}

/// A data plan.
pub struct DataPlan {
    pub code: String,
    pub name: String,
    pub amount: i64,
    pub network: String,
}

/// The customer a meter number belongs to.
pub struct ElectricityValidationMessage {
    pub customer_name: String,
    pub customer_address: Option<String>,
    pub product_code: String,
    pub product_token: String,
}

/// The answer to an electricity purchase.
pub struct ElectricityVendMessage {
    pub details: ElectricityVendDetails,
}

/// What an electricity purchase did (the token is the meter's).
pub struct ElectricityVendDetails {
    pub trans_id: String,
    pub ref_: Option<String>,
    pub token: Option<String>,
    pub amount: i64,
    pub units: Option<String>,
    pub status: String,
}

/// The customer a smartcard number belongs to.
pub struct CableValidationMessage {
    pub customer_name: String,
    pub product_code: String,
    pub product_token: String,
}

/// The answer to a cable TV subscription.
pub struct CableVendMessage {
    pub details: CableVendDetails,
}

/// What a cable TV subscription did.
pub struct CableVendDetails {
    pub trans_id: String,
    pub ref_: Option<String>,
    pub amount: i64,
    pub status: String,
}

} // verus!
