//! Endpoint records as the storage layer sees them: the enumerations a
//! database row's strings parse into, the row and filter shapes, and the
//! filter-to-SQL glue of the endpoint repository.  The storage calls
//! themselves are I/O and live outside the library; what stands here is
//! everything decidable from plain values.

use vstd::prelude::*;

verus! {

use vstd::string::StringExecFns;
use crate::pagination::PaginationParams;
use crate::text::{eq_ignore_ascii_case, str_eq_ignore_ascii_case, strings_view, joined_with,
    join_with};

/// Type of API endpoint.
#[derive(Debug, Clone, Copy, PartialEq, Eq, Structural)]
pub enum EndpointType {
    /// GraphQL API endpoint.
    GraphQL,
}

/// Status of an endpoint connection.
#[derive(Debug, Clone, Copy, PartialEq, Eq, Structural)]
pub enum EndpointStatus {
    /// Endpoint is connected and working.
    Active,
    /// Endpoint is disabled or not in use.
    Inactive,
    /// Endpoint has connection or validation errors.
    Error,
}

/// Authentication method for an endpoint.
#[derive(Debug, Clone, Copy, PartialEq, Eq, Structural)]
pub enum AuthType {
    /// No authentication required.
    NoAuth,
    /// Username and password authentication.
    Basic,
    /// Token-based authentication using the Bearer scheme.
    Bearer,
    /// Authentication using an API key.
    ApiKey,
    /// OAuth 2.0 authentication flow.
    OAuth2,
    /// Custom authentication method.
    Custom,
}

impl EndpointType {
    /// The lower-case name under which the type is stored.
    pub open spec fn spec_name(self) -> Seq<char> {
        "graphql"@
    }

    /// Renders the type as its stored name.
    pub fn name(&self) -> (r: &'static str)
        ensures
            r@ == self.spec_name(),
    {
        "graphql"
    }

    /// The type a stored string denotes, compared without regard to ASCII
    /// case; anything but `graphql` is unknown.
    pub open spec fn spec_parse(s: Seq<char>) -> Option<EndpointType> {
        if eq_ignore_ascii_case(s, "graphql"@) {
            Option::Some(EndpointType::GraphQL)
        } else {
            Option::None
        }
    }

    /// Parses a stored endpoint type.
    pub fn parse(s: &str) -> (r: Option<EndpointType>)
        ensures
            r == EndpointType::spec_parse(s@),
    {
        if str_eq_ignore_ascii_case(s, "graphql") {
            Some(EndpointType::GraphQL)
        } else {
            None
        }
    }
}

impl EndpointStatus {
    /// The lower-case name under which the status is stored.
    pub open spec fn spec_name(self) -> Seq<char> {
        match self {
            EndpointStatus::Active => "active"@,
            EndpointStatus::Inactive => "inactive"@,
            EndpointStatus::Error => "error"@,
        }
    }

    /// Renders the status as its stored name.
    pub fn name(&self) -> (r: &'static str)
        ensures
            r@ == self.spec_name(),
    {
        match self {
            EndpointStatus::Active => "active",
            EndpointStatus::Inactive => "inactive",
            EndpointStatus::Error => "error",
        }
    }

    /// The status a stored string denotes, compared without regard to
    /// ASCII case; an unknown string counts as inactive.
    pub open spec fn spec_parse(s: Seq<char>) -> EndpointStatus {
        if eq_ignore_ascii_case(s, "active"@) {
            EndpointStatus::Active
        } else if eq_ignore_ascii_case(s, "inactive"@) {
            EndpointStatus::Inactive
        } else if eq_ignore_ascii_case(s, "error"@) {
            EndpointStatus::Error
        } else {
            EndpointStatus::Inactive
        }
    }

    /// Parses a stored endpoint status, defaulting to inactive.
    pub fn parse(s: &str) -> (r: EndpointStatus)
        ensures
            r == EndpointStatus::spec_parse(s@),
    {
        if str_eq_ignore_ascii_case(s, "active") {
            EndpointStatus::Active
        } else if str_eq_ignore_ascii_case(s, "inactive") {
            EndpointStatus::Inactive
        } else if str_eq_ignore_ascii_case(s, "error") {
            EndpointStatus::Error
        } else {
            EndpointStatus::Inactive
        }
    }
}

impl AuthType {
    /// The lower-case name under which the method is serialized.
    pub open spec fn spec_name(self) -> Seq<char> {
        match self {
            AuthType::NoAuth => "none"@,
            AuthType::Basic => "basic"@,
            AuthType::Bearer => "bearer"@,
            AuthType::ApiKey => "apikey"@,
            AuthType::OAuth2 => "oauth2"@,
            AuthType::Custom => "custom"@,
        }
    }

    /// Renders the method as its serialized name.
    pub fn name(&self) -> (r: &'static str)
        ensures
            r@ == self.spec_name(),
    {
        match self {
            AuthType::NoAuth => "none",
            AuthType::Basic => "basic",
            AuthType::Bearer => "bearer",
            AuthType::ApiKey => "apikey",
            AuthType::OAuth2 => "oauth2",
            AuthType::Custom => "custom",
        }
    }
}

/// Database row representation of an endpoint: every field still in its
/// stored, string-typed form.
#[derive(Debug, Clone, PartialEq)]
pub struct EndpointRow {
    pub id: String,
    pub name: String,
    pub description: Option<String>,
    pub endpoint_type: String,
    pub url: String,
    pub status: String,
    pub auth: Option<String>,
    pub config: String,
    pub headers: Option<String>,
    pub favorite: bool,
    pub tags: Option<String>,
    pub created_at: String,
    pub updated_at: String,
}

/// The filter of an endpoint listing: pagination plus optional substring
/// matches on name and URL.
#[derive(Debug, Clone, PartialEq)]
pub struct EndpointFilter {
    pub pagination: PaginationParams,
    pub name: Option<String>,
    pub url: Option<String>,
}

/// An update of an existing endpoint; absent fields stay untouched.  The
/// authentication, type-specific configuration and custom headers are JSON
/// documents carried as text, serialized where the update is assembled.
#[derive(Debug, Clone, PartialEq)]
pub struct UpdateEndpointDto {
    /// Unique identifier of the endpoint to update.
    pub id: String,
    /// Updated display name.
    pub name: Option<String>,
    /// Updated description.
    pub description: Option<String>,
    /// Updated endpoint URL.
    pub url: Option<String>,
    /// Updated endpoint status.
    pub status: Option<EndpointStatus>,
    /// Updated authentication configuration, as a JSON document.
    pub auth: Option<String>,
    /// Updated type-specific configuration, as a JSON document.
    pub config: Option<String>,
    /// Updated custom HTTP headers, as a JSON document.
    pub headers: Option<String>,
    /// Updated tags for categorizing and filtering endpoints.
    pub tags: Option<Vec<String>>,
    /// Updated favorite status.
    pub favorite: Option<bool>,
}

/// The endpoint repository; the querying itself happens outside the
/// library, against the SQL and parameters built here.
pub struct EndpointRepository;

/// A SQL LIKE pattern matching any string that contains `s`.
pub open spec fn like_pattern(s: Seq<char>) -> Seq<char> {
    "%"@ + s + "%"@
}

impl EndpointRepository {
    /// The WHERE conditions a filter induces, in order: name, then URL.
    pub open spec fn spec_filter_conditions(filter: EndpointFilter) -> Seq<Seq<char>> {
        (match filter.name {
            Option::Some(_) => seq!["name LIKE ?"@],
            Option::None => Seq::empty(),
        }) + (match filter.url {
            Option::Some(_) => seq!["url LIKE ?"@],
            Option::None => Seq::empty(),
        })
    }

    /// The bind parameters matching `spec_filter_conditions`, in the same
    /// order.
    pub open spec fn spec_filter_params(filter: EndpointFilter) -> Seq<Seq<char>> {
        (match filter.name {
            Option::Some(n) => seq![like_pattern(n@)],
            Option::None => Seq::empty(),
        }) + (match filter.url {
            Option::Some(u) => seq![like_pattern(u@)],
            Option::None => Seq::empty(),
        })
    }

    /// Builds the WHERE conditions and their bind parameters for a filter:
    /// a substring LIKE on the name and one on the URL, each only when the
    /// filter gives it.
    pub fn build_filter_conditions(filter: &EndpointFilter) -> (r: (Vec<String>, Vec<String>))
        ensures
            strings_view(r.0@) == Self::spec_filter_conditions(*filter),
            strings_view(r.1@) == Self::spec_filter_params(*filter),
    {
        let mut conditions: Vec<String> = Vec::new();
        let mut params: Vec<String> = Vec::new();

        match &filter.name {
            None => {},
            Some(name) => {
                conditions.push(String::from_str("name LIKE ?"));
                let mut pattern = String::from_str("%");
                pattern.append(name.as_str());
                pattern.append("%");
                params.push(pattern);
            },
        }
        match &filter.url {
            None => {},
            Some(url) => {
                conditions.push(String::from_str("url LIKE ?"));
                let mut pattern = String::from_str("%");
                pattern.append(url.as_str());
                pattern.append("%");
                params.push(pattern);
            },
        }
        proof {
            assert(strings_view(conditions@) =~= Self::spec_filter_conditions(*filter));
            assert(strings_view(params@) =~= Self::spec_filter_params(*filter));
        }
        (conditions, params)
    }

    /// The SET columns an update touches, in order: name, description,
    /// URL, status, auth, config, headers — exactly those the update
    /// gives.  Tags and favorite are not updatable this way.
    pub open spec fn spec_update_columns(dto: UpdateEndpointDto) -> Seq<Seq<char>> {
        (match dto.name {
            Option::Some(_) => seq!["name = ?"@],
            Option::None => Seq::empty(),
        }) + (match dto.description {
            Option::Some(_) => seq!["description = ?"@],
            Option::None => Seq::empty(),
        }) + (match dto.url {
            Option::Some(_) => seq!["url = ?"@],
            Option::None => Seq::empty(),
        }) + (match dto.status {
            Option::Some(_) => seq!["status = ?"@],
            Option::None => Seq::empty(),
        }) + (match dto.auth {
            Option::Some(_) => seq!["auth = ?"@],
            Option::None => Seq::empty(),
        }) + (match dto.config {
            Option::Some(_) => seq!["config = ?"@],
            Option::None => Seq::empty(),
        }) + (match dto.headers {
            Option::Some(_) => seq!["headers = ?"@],
            Option::None => Seq::empty(),
        })
    }

    /// The bind values matching `spec_update_columns`, in the same order;
    /// the status travels as its stored name.
    pub open spec fn spec_update_values(dto: UpdateEndpointDto) -> Seq<Seq<char>> {
        (match dto.name {
            Option::Some(n) => seq![n@],
            Option::None => Seq::empty(),
        }) + (match dto.description {
            Option::Some(d) => seq![d@],
            Option::None => Seq::empty(),
        }) + (match dto.url {
            Option::Some(u) => seq![u@],
            Option::None => Seq::empty(),
        }) + (match dto.status {
            Option::Some(s) => seq![s.spec_name()],
            Option::None => Seq::empty(),
        }) + (match dto.auth {
            Option::Some(a) => seq![a@],
            Option::None => Seq::empty(),
        }) + (match dto.config {
            Option::Some(c) => seq![c@],
            Option::None => Seq::empty(),
        }) + (match dto.headers {
            Option::Some(h) => seq![h@],
            Option::None => Seq::empty(),
        })
    }

    /// Whether an update gives no updatable field at all.
    pub open spec fn update_is_empty(dto: UpdateEndpointDto) -> bool {
        dto.name is None && dto.description is None && dto.url is None && dto.status is None
            && dto.auth is None && dto.config is None && dto.headers is None
    }

    /// Builds the SET assignments and bind values of an update, refusing
    /// an update that touches no field.
    #[verifier::rlimit(60)]
    pub fn update_assignments(dto: &UpdateEndpointDto) -> (r: Result<
        (Vec<String>, Vec<String>),
        String,
    >)
        ensures
            r is Ok <==> !Self::update_is_empty(*dto),
            r matches Ok(p) ==> strings_view(p.0@) == Self::spec_update_columns(*dto)
                && strings_view(p.1@) == Self::spec_update_values(*dto),
            r matches Err(e) ==> e@ == "No fields to update"@,
    {
        let mut columns: Vec<String> = Vec::new();
        let mut values: Vec<String> = Vec::new();

        match &dto.name {
            None => {},
            Some(name) => {
                columns.push(String::from_str("name = ?"));
                values.push(name.clone());
            },
        }
        match &dto.description {
            None => {},
            Some(description) => {
                columns.push(String::from_str("description = ?"));
                values.push(description.clone());
            },
        }
        match &dto.url {
            None => {},
            Some(url) => {
                columns.push(String::from_str("url = ?"));
                values.push(url.clone());
            },
        }
        match &dto.status {
            None => {},
            Some(status) => {
                columns.push(String::from_str("status = ?"));
                values.push(String::from_str(status.name()));
            },
        }
        proof {
            assert(strings_view(columns@) =~= (match dto.name {
                Option::Some(_) => seq!["name = ?"@],
                Option::None => Seq::empty(),
            }) + (match dto.description {
                Option::Some(_) => seq!["description = ?"@],
                Option::None => Seq::empty(),
            }) + (match dto.url {
                Option::Some(_) => seq!["url = ?"@],
                Option::None => Seq::empty(),
            }) + (match dto.status {
                Option::Some(_) => seq!["status = ?"@],
                Option::None => Seq::empty(),
            }));
            assert(strings_view(values@) =~= (match dto.name {
                Option::Some(n) => seq![n@],
                Option::None => Seq::empty(),
            }) + (match dto.description {
                Option::Some(d) => seq![d@],
                Option::None => Seq::empty(),
            }) + (match dto.url {
                Option::Some(u) => seq![u@],
                Option::None => Seq::empty(),
            }) + (match dto.status {
                Option::Some(s) => seq![s.spec_name()],
                Option::None => Seq::empty(),
            }));
        }
        match &dto.auth {
            None => {},
            Some(auth) => {
                columns.push(String::from_str("auth = ?"));
                values.push(auth.clone());
            },
        }
        match &dto.config {
            None => {},
            Some(config) => {
                columns.push(String::from_str("config = ?"));
                values.push(config.clone());
            },
        }
        proof {
            assert(strings_view(columns@) =~= (match dto.name {
                Option::Some(_) => seq!["name = ?"@],
                Option::None => Seq::empty(),
            }) + (match dto.description {
                Option::Some(_) => seq!["description = ?"@],
                Option::None => Seq::empty(),
            }) + (match dto.url {
                Option::Some(_) => seq!["url = ?"@],
                Option::None => Seq::empty(),
            }) + (match dto.status {
                Option::Some(_) => seq!["status = ?"@],
                Option::None => Seq::empty(),
            }) + (match dto.auth {
                Option::Some(_) => seq!["auth = ?"@],
                Option::None => Seq::empty(),
            }) + (match dto.config {
                Option::Some(_) => seq!["config = ?"@],
                Option::None => Seq::empty(),
            }));
            assert(strings_view(values@) =~= (match dto.name {
                Option::Some(n) => seq![n@],
                Option::None => Seq::empty(),
            }) + (match dto.description {
                Option::Some(d) => seq![d@],
                Option::None => Seq::empty(),
            }) + (match dto.url {
                Option::Some(u) => seq![u@],
                Option::None => Seq::empty(),
            }) + (match dto.status {
                Option::Some(s) => seq![s.spec_name()],
                Option::None => Seq::empty(),
            }) + (match dto.auth {
                Option::Some(a) => seq![a@],
                Option::None => Seq::empty(),
            }) + (match dto.config {
                Option::Some(c) => seq![c@],
                Option::None => Seq::empty(),
            }));
        }
        match &dto.headers {
            None => {},
            Some(headers) => {
                columns.push(String::from_str("headers = ?"));
                values.push(headers.clone());
            },
        }
        if columns.len() == 0 {
            return Err(String::from_str("No fields to update"));
        }
        proof {
            assert(strings_view(columns@) =~= Self::spec_update_columns(*dto));
            assert(strings_view(values@) =~= Self::spec_update_values(*dto));
        }
        Ok((columns, values))
    }

    /// The listing query for the given WHERE conditions.
    pub open spec fn spec_main_query(conditions: Seq<Seq<char>>) -> Seq<char> {
        "SELECT * FROM endpoint"@ + (if conditions.len() == 0 {
            Seq::<char>::empty()
        } else {
            " WHERE "@ + joined_with(conditions, " AND "@)
        }) + " ORDER BY name LIMIT ? OFFSET ?"@
    }

    /// The count query for the given WHERE conditions.
    pub open spec fn spec_count_query(conditions: Seq<Seq<char>>) -> Seq<char> {
        "SELECT COUNT(*) FROM endpoint"@ + (if conditions.len() == 0 {
            Seq::<char>::empty()
        } else {
            " WHERE "@ + joined_with(conditions, " AND "@)
        })
    }

    /// Assembles the paged listing query: the conditions joined with AND,
    /// ordered by name, limited and offset by the bound pagination.
    pub fn main_query_sql(conditions: &Vec<String>) -> (r: String)
        ensures
            r@ == Self::spec_main_query(strings_view(conditions@)),
    {
        let mut sql = String::from_str("SELECT * FROM endpoint");
        if conditions.len() > 0 {
            sql.append(" WHERE ");
            let joined = join_with(conditions, " AND ");
            sql.append(joined.as_str());
        }
        sql.append(" ORDER BY name LIMIT ? OFFSET ?");
        proof {
            assert(sql@ =~= Self::spec_main_query(strings_view(conditions@)));
        }
        sql
    }

    /// Assembles the matching count query over the same conditions.
    pub fn count_query_sql(conditions: &Vec<String>) -> (r: String)
        ensures
            r@ == Self::spec_count_query(strings_view(conditions@)),
    {
        let mut sql = String::from_str("SELECT COUNT(*) FROM endpoint");
        if conditions.len() > 0 {
            sql.append(" WHERE ");
            let joined = join_with(conditions, " AND ");
            sql.append(joined.as_str());
        }
        proof {
            assert(sql@ =~= Self::spec_count_query(strings_view(conditions@)));
        }
        sql
    }
}

} // verus!
