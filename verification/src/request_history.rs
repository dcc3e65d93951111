//! Request-history records: the row shape as stored, the data-transfer
//! shapes the UI sends, and the update/delete glue of the request-history
//! repository.  As with the endpoints, the storage calls themselves are I/O
//! and live outside the library; the decisions — which fields an update
//! touches, whether a delete names anything at all — stand here.

use vstd::prelude::*;

verus! {

use vstd::string::StringExecFns;
use crate::http_method::HttpMethod;
use crate::text::strings_view;

/// Database row representation of a request-history entry: every field
/// still in its stored, string-typed form.
#[derive(Debug, Clone, PartialEq)]
pub struct RequestHistoryRow {
    pub id: String,
    pub tab_id: String,
    pub endpoint_id: String,
    pub name: Option<String>,
    pub method: String,
    pub headers: Option<String>,
    pub body: Option<String>,
    pub query: Option<String>,
    pub created_at: String,
    pub updated_at: String,
}

/// An update of an existing request-history entry; absent fields stay
/// untouched.  Headers and body are JSON documents carried as text.
#[derive(Debug, Clone, PartialEq)]
pub struct UpdateRequestHistoryDto {
    /// Unique identifier of the entry to update.
    pub id: String,
    /// New name of the request.
    pub name: Option<String>,
    /// Whether the name was chosen by the user.
    pub is_custom_name: Option<bool>,
    /// Whether the entry is the selected one.
    pub active: Option<bool>,
    /// New HTTP method of the request.
    pub method: Option<HttpMethod>,
    /// New request headers, as a JSON document.
    pub headers: Option<String>,
    /// New request body, as a JSON document.
    pub body: Option<String>,
    /// New query parameters.
    pub query: Option<String>,
}

/// A delete of request-history entries, by entry id, by endpoint, or both.
#[derive(Debug, Clone, PartialEq)]
pub struct DeleteRequestHistoryDto {
    pub id: Option<String>,
    pub endpoint_id: Option<String>,
}

/// The filter of a request-history listing.
#[derive(Debug, Clone, PartialEq)]
pub struct RequestHistoryFilter {
    pub endpoint_id: String,
}

/// Marks one request-history entry of an endpoint as the active one.
#[derive(Debug, Clone, PartialEq)]
pub struct SetActiveRequestHistoryDto {
    pub id: String,
    pub endpoint_id: String,
    pub active: bool,
}

/// The request-history repository; the querying itself happens outside the
/// library, against the assignments and conditions built here.
pub struct RequestHistoryRepository;

impl RequestHistoryRepository {
    /// The SET columns an update touches, in order: name, method, headers,
    /// body, query — exactly those the update gives.
    pub open spec fn spec_update_columns(dto: UpdateRequestHistoryDto) -> Seq<Seq<char>> {
        (match dto.name {
            Option::Some(_) => seq!["name = ?"@],
            Option::None => Seq::empty(),
        }) + (match dto.method {
            Option::Some(_) => seq!["method = ?"@],
            Option::None => Seq::empty(),
        }) + (match dto.headers {
            Option::Some(_) => seq!["headers = ?"@],
            Option::None => Seq::empty(),
        }) + (match dto.body {
            Option::Some(_) => seq!["body = ?"@],
            Option::None => Seq::empty(),
        }) + (match dto.query {
            Option::Some(_) => seq!["query = ?"@],
            Option::None => Seq::empty(),
        })
    }

    /// The bind values matching `spec_update_columns`, in the same order;
    /// the method travels as its lower-case name.
    pub open spec fn spec_update_values(dto: UpdateRequestHistoryDto) -> Seq<Seq<char>> {
        (match dto.name {
            Option::Some(n) => seq![n@],
            Option::None => Seq::empty(),
        }) + (match dto.method {
            Option::Some(m) => seq![m.spec_name()],
            Option::None => Seq::empty(),
        }) + (match dto.headers {
            Option::Some(h) => seq![h@],
            Option::None => Seq::empty(),
        }) + (match dto.body {
            Option::Some(b) => seq![b@],
            Option::None => Seq::empty(),
        }) + (match dto.query {
            Option::Some(q) => seq![q@],
            Option::None => Seq::empty(),
        })
    }

    /// Whether an update gives no field at all.
    pub open spec fn update_is_empty(dto: UpdateRequestHistoryDto) -> bool {
        dto.name is None && dto.method is None && dto.headers is None && dto.body is None
            && dto.query is None
    }

    /// Builds the SET assignments and bind values of an update, refusing an
    /// update that touches no field.
    pub fn update_assignments(dto: &UpdateRequestHistoryDto) -> (r: Result<
        (Vec<String>, Vec<String>),
        String,
    >)
        ensures
            r is Ok <==> !Self::update_is_empty(*dto),
            r matches Ok(p) ==> strings_view(p.0@) == Self::spec_update_columns(*dto)
                && strings_view(p.1@) == Self::spec_update_values(*dto),
            r matches Err(e) ==> e@ == "No fields to update"@,
    {
        let mut columns: Vec<String> = Vec::new();
        let mut values: Vec<String> = Vec::new();

        match &dto.name {
            None => {},
            Some(name) => {
                columns.push(String::from_str("name = ?"));
                values.push(name.clone());
            },
        }
        match &dto.method {
            None => {},
            Some(method) => {
                columns.push(String::from_str("method = ?"));
                values.push(String::from_str(method.name()));
            },
        }
        match &dto.headers {
            None => {},
            Some(headers) => {
                columns.push(String::from_str("headers = ?"));
                values.push(headers.clone());
            },
        }
        match &dto.body {
            None => {},
            Some(body) => {
                columns.push(String::from_str("body = ?"));
                values.push(body.clone());
            },
        }
        match &dto.query {
            None => {},
            Some(query) => {
                columns.push(String::from_str("query = ?"));
                values.push(query.clone());
            },
        }
        if columns.len() == 0 {
            return Err(String::from_str("No fields to update"));
        }
        proof {
            assert(strings_view(columns@) =~= Self::spec_update_columns(*dto));
            assert(strings_view(values@) =~= Self::spec_update_values(*dto));
        }
        Ok((columns, values))
    }

    /// The WHERE conditions a delete induces, in order: entry id, then
    /// endpoint id.
    pub open spec fn spec_delete_conditions(dto: DeleteRequestHistoryDto) -> Seq<Seq<char>> {
        (match dto.id {
            Option::Some(_) => seq!["id = ?"@],
            Option::None => Seq::empty(),
        }) + (match dto.endpoint_id {
            Option::Some(_) => seq!["endpoint_id = ?"@],
            Option::None => Seq::empty(),
        })
    }

    /// The bind values matching `spec_delete_conditions`.
    pub open spec fn spec_delete_params(dto: DeleteRequestHistoryDto) -> Seq<Seq<char>> {
        (match dto.id {
            Option::Some(i) => seq![i@],
            Option::None => Seq::empty(),
        }) + (match dto.endpoint_id {
            Option::Some(e) => seq![e@],
            Option::None => Seq::empty(),
        })
    }

    /// Builds the WHERE conditions and bind values of a delete, refusing a
    /// delete that names neither an entry nor an endpoint.
    pub fn delete_conditions(dto: &DeleteRequestHistoryDto) -> (r: Result<
        (Vec<String>, Vec<String>),
        String,
    >)
        ensures
            r is Ok <==> !(dto.id is None && dto.endpoint_id is None),
            r matches Ok(p) ==> strings_view(p.0@) == Self::spec_delete_conditions(*dto)
                && strings_view(p.1@) == Self::spec_delete_params(*dto),
            r matches Err(e) ==> e@ == "Either id or endpoint_id must be provided"@,
    {
        if dto.id.is_none() && dto.endpoint_id.is_none() {
            return Err(String::from_str("Either id or endpoint_id must be provided"));
        }
        let mut conditions: Vec<String> = Vec::new();
        let mut params: Vec<String> = Vec::new();
        match &dto.id {
            None => {},
            Some(id) => {
                conditions.push(String::from_str("id = ?"));
                params.push(id.clone());
            },
        }
        match &dto.endpoint_id {
            None => {},
            Some(endpoint_id) => {
                conditions.push(String::from_str("endpoint_id = ?"));
                params.push(endpoint_id.clone());
            },
        }
        proof {
            assert(strings_view(conditions@) =~= Self::spec_delete_conditions(*dto));
            assert(strings_view(params@) =~= Self::spec_delete_params(*dto));
        }
        Ok((conditions, params))
    }
}

} // verus!
