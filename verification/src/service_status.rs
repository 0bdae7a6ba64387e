//! Asking whether a part of the API is up.

use vstd::prelude::*;
use crate::client::Method;
use crate::client::NeweggClient;
use crate::client::PreparedRequest;
use crate::text::concat_strs;
use crate::text::str_eq;

verus! {

/// The parts of the API whose status can be asked for.
#[derive(Debug, Clone, Copy, PartialEq, Eq, Structural)]
pub enum ServiceStatusDomain {
    Content,
    Order,
    DateFeed,
    Service,
    Report,
    Seller,
    Sbn,
    ShippingLabel,
}

impl ServiceStatusDomain {
    /// The name of the domain in a path.
    pub open spec fn spec_as_str(&self) -> Seq<char> {
        match self {
            ServiceStatusDomain::Content => "contentmgmt"@,
            ServiceStatusDomain::Order => "ordermgmt"@,
            ServiceStatusDomain::DateFeed => "datafeedmgmt"@,
            ServiceStatusDomain::Service => "servicemgmt"@,
            ServiceStatusDomain::Report => "reportmgmt"@,
            ServiceStatusDomain::Seller => "sellermgmt"@,
            ServiceStatusDomain::Sbn => "sbnmgmt"@,
            ServiceStatusDomain::ShippingLabel => "shippinglabelmgmt"@,
        }
    }

    /// The domain that a text names: one of the eight, or none.
    pub open spec fn named(text: Seq<char>) -> Option<ServiceStatusDomain> {
        if text == "contentmgmt"@ {
            Some(ServiceStatusDomain::Content)
        } else if text == "ordermgmt"@ {
            Some(ServiceStatusDomain::Order)
        } else if text == "datafeedmgmt"@ {
            Some(ServiceStatusDomain::DateFeed)
        } else if text == "servicemgmt"@ {
            Some(ServiceStatusDomain::Service)
        } else if text == "reportmgmt"@ {
            Some(ServiceStatusDomain::Report)
        } else if text == "sellermgmt"@ {
            Some(ServiceStatusDomain::Seller)
        } else if text == "sbnmgmt"@ {
            Some(ServiceStatusDomain::Sbn)
        } else if text == "shippinglabelmgmt"@ {
            Some(ServiceStatusDomain::ShippingLabel)
        } else {
            None
        }
    }

    /// The name of the domain in a path.
    pub fn as_str(&self) -> (name: &'static str)
        ensures
            name@ == self.spec_as_str(),
    {
        match self {
            ServiceStatusDomain::Content => "contentmgmt",
            ServiceStatusDomain::Order => "ordermgmt",
            ServiceStatusDomain::DateFeed => "datafeedmgmt",
            ServiceStatusDomain::Service => "servicemgmt",
            ServiceStatusDomain::Report => "reportmgmt",
            ServiceStatusDomain::Seller => "sellermgmt",
            ServiceStatusDomain::Sbn => "sbnmgmt",
            ServiceStatusDomain::ShippingLabel => "shippinglabelmgmt",
        }
    }

    /// The domain that `v` names, if it names one.
    pub fn from_str(v: &str) -> (domain: Option<ServiceStatusDomain>)
        ensures
            domain == ServiceStatusDomain::named(v@),
    {
        if str_eq(v, "contentmgmt") {
            Some(ServiceStatusDomain::Content)
        } else if str_eq(v, "ordermgmt") {
            Some(ServiceStatusDomain::Order)
        } else if str_eq(v, "datafeedmgmt") {
            Some(ServiceStatusDomain::DateFeed)
        } else if str_eq(v, "servicemgmt") {
            Some(ServiceStatusDomain::Service)
        } else if str_eq(v, "reportmgmt") {
            Some(ServiceStatusDomain::Report)
        } else if str_eq(v, "sellermgmt") {
            Some(ServiceStatusDomain::Seller)
        } else if str_eq(v, "sbnmgmt") {
            Some(ServiceStatusDomain::Sbn)
        } else if str_eq(v, "shippinglabelmgmt") {
            Some(ServiceStatusDomain::ShippingLabel)
        } else {
            None
        }
    }
}

/// Every domain has a name of its own, and the name leads back to it.
pub proof fn lemma_domain_names_round_trip(domain: ServiceStatusDomain)
    ensures
        ServiceStatusDomain::named(domain.spec_as_str()) == Some(domain),
{
    reveal_strlit("contentmgmt");
    reveal_strlit("ordermgmt");
    reveal_strlit("datafeedmgmt");
    reveal_strlit("servicemgmt");
    reveal_strlit("reportmgmt");
    reveal_strlit("sellermgmt");
    reveal_strlit("sbnmgmt");
    reveal_strlit("shippinglabelmgmt");
    assert("contentmgmt"@[0] == 'c');
    assert("ordermgmt"@[0] == 'o');
    assert("datafeedmgmt"@[0] == 'd');
    assert("servicemgmt"@[1] == 'e' && "servicemgmt"@[2] == 'r');
    assert("reportmgmt"@[0] == 'r');
    assert("sellermgmt"@[2] == 'l');
    assert("sbnmgmt"@[1] == 'b');
    assert("shippinglabelmgmt"@[1] == 'h');
}

/// The status of one part of the API.
#[derive(Debug)]
pub struct GetServiceStatusResponse {
    pub newegg_api_response: NeweggApiResponse,
}

#[derive(Debug)]
pub struct NeweggApiResponse {
    /// The success flag, as the text of a boolean.
    pub is_success: String,
    pub operation_type: String,
    pub seller_id: String,
    pub response_body: ResponseBody,
}

#[derive(Debug)]
pub struct ResponseBody {
    pub status: String,
    pub timestamp: String,
}

/// The path under which the status of a domain is read.
pub open spec fn service_status_path(domain: ServiceStatusDomain) -> Seq<char> {
    "/"@ + domain.spec_as_str() + "/servicestatus"@
}

impl NeweggClient {
    /// The request that asks whether `domain` is up.
    pub fn get_service_status(&self, domain: ServiceStatusDomain) -> (prepared: PreparedRequest<()>)
        ensures
            self.asks(service_status_path(domain), prepared),
    {
        let mut path = concat_strs("/", domain.as_str());
        path.append("/servicestatus");
        self.request(Method::Get, path.as_str())
    }
}

} // verus!
