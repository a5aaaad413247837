//! Credentials, authorization scopes and the access token.

use vstd::prelude::*;
use crate::error::AuthError;
use crate::http::{
    is_success, status_is_success, HttpReply, HttpReplyView, HttpRequest, HttpRequestView, Method,
};
use crate::json::{json_object, parse_object, text_member, u32_member, JsonFieldView, JsonObject};
use crate::text::{all_nonempty, join_if, joined, lemma_joined_len, selected};

verus! {

/// An access token as the token endpoint issues it.
#[derive(Clone, Debug, PartialEq, Eq)]
pub struct DomoToken {
    pub access_token: String,
    pub token_type: String,
    pub expires_in: u32,
    pub scope: String,
    pub customer: String,
    pub env: String,
    pub user_id: u32,
    pub role: String,
    pub jti: String,
    pub domain: String,
}

/// A `DomoToken` with its texts as sequences of characters.
pub struct DomoTokenView {
    pub access_token: Seq<char>,
    pub token_type: Seq<char>,
    pub expires_in: u32,
    pub scope: Seq<char>,
    pub customer: Seq<char>,
    pub env: Seq<char>,
    pub user_id: u32,
    pub role: Seq<char>,
    pub jti: Seq<char>,
    pub domain: Seq<char>,
}

impl View for DomoToken {
    type V = DomoTokenView;

    open spec fn view(&self) -> DomoTokenView {
        DomoTokenView {
            access_token: self.access_token@,
            token_type: self.token_type@,
            expires_in: self.expires_in,
            scope: self.scope@,
            customer: self.customer@,
            env: self.env@,
            user_id: self.user_id,
            role: self.role@,
            jti: self.jti@,
            domain: self.domain@,
        }
    }
}

impl DomoTokenView {
    /// The token whose texts are empty and whose numbers are zero.
    pub open spec fn empty() -> DomoTokenView {
        DomoTokenView {
            access_token: Seq::empty(),
            token_type: Seq::empty(),
            expires_in: 0,
            scope: Seq::empty(),
            customer: Seq::empty(),
            env: Seq::empty(),
            user_id: 0,
            role: Seq::empty(),
            jti: Seq::empty(),
            domain: Seq::empty(),
        }
    }
}

impl DomoToken {
    /// The token whose texts are empty and whose numbers are zero.
    pub fn default() -> (token: Self)
        ensures
            token@ == DomoTokenView::empty(),
    {
        Self {
            access_token: String::new(),
            token_type: String::new(),
            expires_in: 0_u32,
            scope: String::new(),
            customer: String::new(),
            env: String::new(),
            jti: String::new(),
            user_id: 0_u32,
            role: String::new(),
            domain: String::new(),
        }
    }

    /// Replaces the access token and keeps the rest.
    pub fn access_token(self, access_token: &str) -> (token: Self)
        ensures
            token@ == (DomoTokenView { access_token: access_token@, ..self@ }),
    {
        let mut token = self;
        token.access_token = String::from_str(access_token);
        token
    }

    /// Replaces the token type and keeps the rest.
    pub fn token_type(self, token_type: &str) -> (token: Self)
        ensures
            token@ == (DomoTokenView { token_type: token_type@, ..self@ }),
    {
        let mut token = self;
        token.token_type = String::from_str(token_type);
        token
    }

    /// Replaces the life time and keeps the rest.
    pub fn expires_in(self, expires_in: u32) -> (token: Self)
        ensures
            token@ == (DomoTokenView { expires_in: expires_in, ..self@ }),
    {
        let mut token = self;
        token.expires_in = expires_in;
        token
    }

    /// Replaces the granted scope and keeps the rest.
    pub fn scope(self, scope: &str) -> (token: Self)
        ensures
            token@ == (DomoTokenView { scope: scope@, ..self@ }),
    {
        let mut token = self;
        token.scope = String::from_str(scope);
        token
    }
}

/// The authorization scopes that a client may ask for.
#[derive(Clone, Copy, Debug, PartialEq, Eq, Structural)]
pub struct DomoScope {
    pub data: bool,
    pub user: bool,
    pub audit: bool,
    pub dashboard: bool,
    pub buzz: bool,
    pub account: bool,
    pub workflow: bool,
}

/// What stands between two scope names: a space, percent-encoded.
pub open spec fn scope_separator() -> Seq<char> {
    "%20"@
}

impl DomoScope {
    /// Whether at least one scope is asked for.
    pub open spec fn any(self) -> bool {
        self.data || self.user || self.audit || self.dashboard || self.buzz || self.account
            || self.workflow
    }

    /// The names of the scopes asked for, in their fixed order.
    pub open spec fn names(self) -> Seq<Seq<char>> {
        selected(self.data, "data"@) + selected(self.user, "user"@) + selected(
            self.audit,
            "audit"@,
        ) + selected(self.dashboard, "dashboard"@) + selected(self.buzz, "buzz"@) + selected(
            self.account,
            "account"@,
        ) + selected(self.workflow, "workflow"@)
    }

    /// The scope parameter of a token request: the names joined by an
    /// encoded space.
    pub open spec fn text(self) -> Seq<char> {
        joined(self.names(), scope_separator())
    }

    /// Writes the scope parameter of a token request.
    pub fn scope_string(&self) -> (scopes: String)
        ensures
            scopes@ == self.text(),
            scopes@.len() > 0 <==> self.any(),
    {
        let mut scopes = String::new();
        let ghost n0 = Seq::<Seq<char>>::empty();
        let ghost n1 = n0 + selected(self.data, "data"@);
        let ghost n2 = n1 + selected(self.user, "user"@);
        let ghost n3 = n2 + selected(self.audit, "audit"@);
        let ghost n4 = n3 + selected(self.dashboard, "dashboard"@);
        let ghost n5 = n4 + selected(self.buzz, "buzz"@);
        let ghost n6 = n5 + selected(self.account, "account"@);
        let ghost n7 = n6 + selected(self.workflow, "workflow"@);
        proof {
            reveal_strlit("data");
            reveal_strlit("user");
            reveal_strlit("audit");
            reveal_strlit("dashboard");
            reveal_strlit("buzz");
            reveal_strlit("account");
            reveal_strlit("workflow");
        }
        join_if(&mut scopes, self.data, "data", "%20", Ghost(n0));
        join_if(&mut scopes, self.user, "user", "%20", Ghost(n1));
        join_if(&mut scopes, self.audit, "audit", "%20", Ghost(n2));
        join_if(&mut scopes, self.dashboard, "dashboard", "%20", Ghost(n3));
        join_if(&mut scopes, self.buzz, "buzz", "%20", Ghost(n4));
        join_if(&mut scopes, self.account, "account", "%20", Ghost(n5));
        join_if(&mut scopes, self.workflow, "workflow", "%20", Ghost(n6));
        proof {
            assert(n1 =~= selected(self.data, "data"@));
            assert(n7 == self.names());
            lemma_scope_text_empty(*self);
        }
        scopes
    }
}

/// With none of buzz, account and workflow asked for, the scope parameter is
/// made of the names of data, user, audit and dashboard, those that are asked
/// for, in this order, with an encoded space between neighbours.
pub proof fn lemma_scope_text_of_four(scope: DomoScope)
    requires
        !scope.buzz,
        !scope.account,
        !scope.workflow,
    ensures
        scope.text() == joined(
            selected(scope.data, "data"@) + selected(scope.user, "user"@) + selected(
                scope.audit,
                "audit"@,
            ) + selected(scope.dashboard, "dashboard"@),
            "%20"@,
        ),
{
    let four = selected(scope.data, "data"@) + selected(scope.user, "user"@) + selected(
        scope.audit,
        "audit"@,
    ) + selected(scope.dashboard, "dashboard"@);
    assert(scope.names() =~= four);
}

/// Adding a selected name keeps all names non-empty and lengthens the list by
/// one exactly if the flag is set.
proof fn lemma_selected_added(before: Seq<Seq<char>>, flag: bool, name: Seq<char>)
    requires
        all_nonempty(before),
        name.len() > 0,
    ensures
        all_nonempty(before + selected(flag, name)),
        (before + selected(flag, name)).len() == before.len() + if flag {
            1int
        } else {
            0int
        },
{
}

/// The scope parameter is empty exactly when no scope is asked for.
pub proof fn lemma_scope_text_empty(scope: DomoScope)
    ensures
        scope.text().len() == 0 <==> !scope.any(),
{
    reveal_strlit("data");
    reveal_strlit("user");
    reveal_strlit("audit");
    reveal_strlit("dashboard");
    reveal_strlit("buzz");
    reveal_strlit("account");
    reveal_strlit("workflow");
    let n0 = Seq::<Seq<char>>::empty();
    let n1 = n0 + selected(scope.data, "data"@);
    let n2 = n1 + selected(scope.user, "user"@);
    let n3 = n2 + selected(scope.audit, "audit"@);
    let n4 = n3 + selected(scope.dashboard, "dashboard"@);
    let n5 = n4 + selected(scope.buzz, "buzz"@);
    let n6 = n5 + selected(scope.account, "account"@);
    let n7 = n6 + selected(scope.workflow, "workflow"@);
    lemma_selected_added(n0, scope.data, "data"@);
    lemma_selected_added(n1, scope.user, "user"@);
    lemma_selected_added(n2, scope.audit, "audit"@);
    lemma_selected_added(n3, scope.dashboard, "dashboard"@);
    lemma_selected_added(n4, scope.buzz, "buzz"@);
    lemma_selected_added(n5, scope.account, "account"@);
    lemma_selected_added(n6, scope.workflow, "workflow"@);
    assert(n1 =~= selected(scope.data, "data"@));
    assert(n7 == scope.names());
    lemma_joined_len(n7, scope_separator());
}

impl Default for DomoScope {
    fn default() -> (scope: Self)
        ensures
            !scope.any(),
    {
        DomoScope {
            data: false,
            user: false,
            audit: false,
            dashboard: false,
            buzz: false,
            account: false,
            workflow: false,
        }
    }
}

/// What the environment holds for a client: its id and secret where they are
/// set, and for each of four scopes whether its variable is set.
#[derive(Clone, Debug, PartialEq, Eq)]
pub struct Environment {
    pub client_id: Option<String>,
    pub client_secret: Option<String>,
    pub data_scope: bool,
    pub user_scope: bool,
    pub audit_scope: bool,
    pub dashboard_scope: bool,
}

impl Environment {
    /// The scopes that the environment asks for: data, user, audit and
    /// dashboard where all four are set, and data alone otherwise.
    pub open spec fn scope(self) -> DomoScope {
        let all = self.data_scope && self.user_scope && self.audit_scope && self.dashboard_scope;
        DomoScope {
            data: true,
            user: all,
            audit: all,
            dashboard: all,
            buzz: false,
            account: false,
            workflow: false,
        }
    }
}

/// The text of an optional setting: empty where it is not set.
pub open spec fn setting_text(setting: Option<String>) -> Seq<char> {
    match setting {
        Some(text) => text@,
        None => Seq::empty(),
    }
}

/// The credentials of a client application, with the token once it has one.
#[derive(Clone, Debug, PartialEq, Eq)]
pub struct DomoClientAppCredentials {
    pub client_id: String,
    pub client_secret: String,
    pub token: Option<DomoToken>,
    pub domo_scope: DomoScope,
}

/// `DomoClientAppCredentials` with its texts as sequences of characters.
pub struct DomoClientAppCredentialsView {
    pub client_id: Seq<char>,
    pub client_secret: Seq<char>,
    pub token: Option<DomoTokenView>,
    pub domo_scope: DomoScope,
}

impl View for DomoClientAppCredentials {
    type V = DomoClientAppCredentialsView;

    open spec fn view(&self) -> DomoClientAppCredentialsView {
        DomoClientAppCredentialsView {
            client_id: self.client_id@,
            client_secret: self.client_secret@,
            token: match self.token {
                Some(token) => Some(token@),
                None => None,
            },
            domo_scope: self.domo_scope,
        }
    }
}

/// The next thing to do to have an access token.
#[derive(Clone, Debug, PartialEq, Eq)]
pub enum TokenStep {
    /// A token is at hand: nothing needs to be sent.
    Cached(String),
    /// No token is at hand: this request asks the token endpoint for one.
    Fetch(HttpRequest),
}

/// A `TokenStep` with its texts as sequences of characters.
pub enum TokenStepView {
    Cached(Seq<char>),
    Fetch(HttpRequestView),
}

impl View for TokenStep {
    type V = TokenStepView;

    open spec fn view(&self) -> TokenStepView {
        match self {
            TokenStep::Cached(token) => TokenStepView::Cached(token@),
            TokenStep::Fetch(request) => TokenStepView::Fetch(request@),
        }
    }
}

/// The URL of the token endpoint up to the value of the scope parameter.
pub open spec fn token_url() -> Seq<char> {
    "https://api.domo.com/oauth/token?grant_type=client_credentials&scope="@
}

/// The request that asks the token endpoint for a token: a POST with HTTP
/// Basic authentication by client id and secret, the grant type and the scope
/// in the query, no further header and no body.
pub open spec fn token_request(
    client_id: Seq<char>,
    client_secret: Seq<char>,
    params: Seq<char>,
) -> HttpRequestView {
    HttpRequestView {
        method: Method::Post,
        url: token_url() + params,
        basic_auth: Some((client_id, client_secret)),
        headers: Seq::empty(),
        body: None,
    }
}

/// Whether the members of a JSON object make a token: the eight texts and the
/// two numbers are all there.
pub open spec fn is_token(members: Seq<(Seq<char>, JsonFieldView)>) -> bool {
    &&& text_member(members, "access_token"@) is Some
    &&& text_member(members, "token_type"@) is Some
    &&& u32_member(members, "expires_in"@) is Some
    &&& text_member(members, "scope"@) is Some
    &&& text_member(members, "customer"@) is Some
    &&& text_member(members, "env"@) is Some
    &&& u32_member(members, "userId"@) is Some
    &&& text_member(members, "role"@) is Some
    &&& text_member(members, "jti"@) is Some
    &&& text_member(members, "domain"@) is Some
}

/// The token that the members of a JSON object spell.
pub open spec fn token_fields(members: Seq<(Seq<char>, JsonFieldView)>) -> DomoTokenView {
    DomoTokenView {
        access_token: text_member(members, "access_token"@)->0,
        token_type: text_member(members, "token_type"@)->0,
        expires_in: u32_member(members, "expires_in"@)->0,
        scope: text_member(members, "scope"@)->0,
        customer: text_member(members, "customer"@)->0,
        env: text_member(members, "env"@)->0,
        user_id: u32_member(members, "userId"@)->0,
        role: text_member(members, "role"@)->0,
        jti: text_member(members, "jti"@)->0,
        domain: text_member(members, "domain"@)->0,
    }
}

/// Reading a token from the members of a JSON object: the token where they
/// make one, and `Deserialize` where they do not.
pub open spec fn token_of(members: Seq<(Seq<char>, JsonFieldView)>) -> Result<
    DomoTokenView,
    AuthError,
> {
    if is_token(members) {
        Ok(token_fields(members))
    } else {
        Err(AuthError::Deserialize)
    }
}

/// What a reply from the token endpoint amounts to.
pub open spec fn token_outcome(reply: HttpReplyView) -> Result<DomoTokenView, AuthError> {
    match reply {
        HttpReplyView::TransportFailed => Err(AuthError::HttpRequestFailed),
        HttpReplyView::Response { status, body } => if !status_is_success(status) {
            Err(AuthError::RequestFailed { status })
        } else {
            match json_object(body) {
                Some(members) => token_of(members),
                None => Err(AuthError::Deserialize),
            }
        },
    }
}

impl DomoToken {
    /// Reads a token from the members of a JSON object. Members that a token
    /// does not have are passed over.
    pub fn from_json(object: &JsonObject) -> (result: Result<DomoToken, AuthError>)
        ensures
            match token_of(object@) {
                Ok(token) => result matches Ok(t) && t@ == token,
                Err(e) => result matches Err(err) && err == e,
            },
    {
        let access_token = match object.text("access_token") {
            Some(text) => text,
            None => return Err(AuthError::Deserialize),
        };
        let token_type = match object.text("token_type") {
            Some(text) => text,
            None => return Err(AuthError::Deserialize),
        };
        let expires_in = match object.unsigned("expires_in") {
            Some(n) => n,
            None => return Err(AuthError::Deserialize),
        };
        let scope = match object.text("scope") {
            Some(text) => text,
            None => return Err(AuthError::Deserialize),
        };
        let customer = match object.text("customer") {
            Some(text) => text,
            None => return Err(AuthError::Deserialize),
        };
        let env = match object.text("env") {
            Some(text) => text,
            None => return Err(AuthError::Deserialize),
        };
        let user_id = match object.unsigned("userId") {
            Some(n) => n,
            None => return Err(AuthError::Deserialize),
        };
        let role = match object.text("role") {
            Some(text) => text,
            None => return Err(AuthError::Deserialize),
        };
        let jti = match object.text("jti") {
            Some(text) => text,
            None => return Err(AuthError::Deserialize),
        };
        let domain = match object.text("domain") {
            Some(text) => text,
            None => return Err(AuthError::Deserialize),
        };
        Ok(
            DomoToken {
                access_token,
                token_type,
                expires_in,
                scope,
                customer,
                env,
                user_id,
                role,
                jti,
                domain,
            },
        )
    }

    /// Reads the reply of the token endpoint: the token of a successful
    /// response whose body is one, otherwise the failure.
    pub fn from_reply(reply: &HttpReply) -> (result: Result<DomoToken, AuthError>)
        ensures
            match token_outcome(reply@) {
                Ok(token) => result matches Ok(t) && t@ == token,
                Err(e) => result matches Err(err) && err == e,
            },
    {
        match reply {
            HttpReply::TransportFailed => Err(AuthError::HttpRequestFailed),
            HttpReply::Response { status, body } => {
                if !is_success(*status) {
                    return Err(AuthError::RequestFailed { status: *status });
                }
                match parse_object(body) {
                    Some(object) => DomoToken::from_json(&object),
                    None => Err(AuthError::Deserialize),
                }
            },
        }
    }
}

/// Describes the request that asks the token endpoint for a token with the
/// given scope parameter.
pub fn fetch_access_token(client_id: &str, client_secret: &str, params: &str) -> (request:
    HttpRequest)
    ensures
        request@ == token_request(client_id@, client_secret@, params@),
{
    let mut url = String::from_str(
        "https://api.domo.com/oauth/token?grant_type=client_credentials&scope=",
    );
    url.append(params);
    let request = HttpRequest {
        method: Method::Post,
        url,
        basic_auth: Some((String::from_str(client_id), String::from_str(client_secret))),
        headers: Vec::new(),
        body: None,
    };
    proof {
        assert(request@.headers =~= Seq::empty());
    }
    request
}

impl DomoClientAppCredentialsView {
    /// Whether at least one scope is asked for.
    pub open spec fn has_scope(self) -> bool {
        self.domo_scope.any()
    }

    /// Whether the client id or the client secret is missing.
    pub open spec fn is_incomplete(self) -> bool {
        self.client_id.len() == 0 || self.client_secret.len() == 0
    }

    /// The request that asks for a token with these credentials and scopes.
    pub open spec fn request(self) -> HttpRequestView {
        token_request(self.client_id, self.client_secret, self.domo_scope.text())
    }

    /// The next thing to do to have an access token: use the cached one, or
    /// send the request for one.
    pub open spec fn next_step(self) -> TokenStepView {
        match self.token {
            Some(token) => TokenStepView::Cached(token.access_token),
            None => TokenStepView::Fetch(self.request()),
        }
    }

    /// The credentials after a reply from the token endpoint: with the token
    /// in the cache where the reply brought one, and unchanged otherwise.
    pub open spec fn with_reply(self, reply: HttpReplyView) -> DomoClientAppCredentialsView {
        match token_outcome(reply) {
            Ok(token) => DomoClientAppCredentialsView { token: Some(token), ..self },
            Err(_) => self,
        }
    }
}

/// The access token that a reply from the token endpoint brings, or the
/// failure that the reply stands for.
pub open spec fn access_token_of(reply: HttpReplyView) -> Result<Seq<char>, AuthError> {
    match token_outcome(reply) {
        Ok(token) => Ok(token.access_token),
        Err(e) => Err(e),
    }
}

impl DomoClientAppCredentials {
    /// The credentials that an environment describes: id and secret as far as
    /// they are set, no token, and the scopes that the environment asks for.
    pub fn default(env: Environment) -> (credentials: Self)
        ensures
            credentials@ == (DomoClientAppCredentialsView {
                client_id: setting_text(env.client_id),
                client_secret: setting_text(env.client_secret),
                token: None,
                domo_scope: env.scope(),
            }),
            credentials@.has_scope(),
    {
        let all = env.data_scope && env.user_scope && env.audit_scope && env.dashboard_scope;
        let client_id = match env.client_id {
            Some(text) => text,
            None => String::new(),
        };
        let client_secret = match env.client_secret {
            Some(text) => text,
            None => String::new(),
        };
        let scope = DomoScope {
            data: true,
            user: all,
            audit: all,
            dashboard: all,
            buzz: false,
            account: false,
            workflow: false,
        };
        Self { client_id, client_secret, token: None, domo_scope: scope }
    }

    /// Replaces the client id and keeps the rest.
    pub fn client_id(self, client_id: &str) -> (credentials: Self)
        ensures
            credentials@ == (DomoClientAppCredentialsView { client_id: client_id@, ..self@ }),
    {
        let mut credentials = self;
        credentials.client_id = String::from_str(client_id);
        credentials
    }

    /// Replaces the client secret and keeps the rest.
    pub fn client_secret(self, client_secret: &str) -> (credentials: Self)
        ensures
            credentials@ == (DomoClientAppCredentialsView {
                client_secret: client_secret@,
                ..self@
            }),
    {
        let mut credentials = self;
        credentials.client_secret = String::from_str(client_secret);
        credentials
    }

    /// Replaces the scopes and keeps the rest.
    pub fn client_scope(self, domo_scope: DomoScope) -> (credentials: Self)
        ensures
            credentials@ == (DomoClientAppCredentialsView { domo_scope: domo_scope, ..self@ }),
    {
        let mut credentials = self;
        credentials.domo_scope = domo_scope;
        credentials
    }

    /// Asks for the user scope too.
    pub fn with_user_scope(self) -> (credentials: Self)
        ensures
            credentials@ == (DomoClientAppCredentialsView {
                domo_scope: DomoScope { user: true, ..self.domo_scope },
                ..self@
            }),
            credentials@.has_scope(),
    {
        let mut credentials = self;
        credentials.domo_scope.user = true;
        credentials
    }

    /// Asks for the data scope too.
    pub fn with_data_scope(self) -> (credentials: Self)
        ensures
            credentials@ == (DomoClientAppCredentialsView {
                domo_scope: DomoScope { data: true, ..self.domo_scope },
                ..self@
            }),
            credentials@.has_scope(),
    {
        let mut credentials = self;
        credentials.domo_scope.data = true;
        credentials
    }

    /// Asks for the audit scope too.
    pub fn with_audit_scope(self) -> (credentials: Self)
        ensures
            credentials@ == (DomoClientAppCredentialsView {
                domo_scope: DomoScope { audit: true, ..self.domo_scope },
                ..self@
            }),
            credentials@.has_scope(),
    {
        let mut credentials = self;
        credentials.domo_scope.audit = true;
        credentials
    }

    /// Asks for the dashboard scope too.
    pub fn with_dashboard_scope(self) -> (credentials: Self)
        ensures
            credentials@ == (DomoClientAppCredentialsView {
                domo_scope: DomoScope { dashboard: true, ..self.domo_scope },
                ..self@
            }),
            credentials@.has_scope(),
    {
        let mut credentials = self;
        credentials.domo_scope.dashboard = true;
        credentials
    }

    /// Asks for the buzz scope too.
    pub fn with_buzz_scope(self) -> (credentials: Self)
        ensures
            credentials@ == (DomoClientAppCredentialsView {
                domo_scope: DomoScope { buzz: true, ..self.domo_scope },
                ..self@
            }),
            credentials@.has_scope(),
    {
        let mut credentials = self;
        credentials.domo_scope.buzz = true;
        credentials
    }

    /// Asks for the workflow scope too.
    pub fn with_workflow_scope(self) -> (credentials: Self)
        ensures
            credentials@ == (DomoClientAppCredentialsView {
                domo_scope: DomoScope { workflow: true, ..self.domo_scope },
                ..self@
            }),
            credentials@.has_scope(),
    {
        let mut credentials = self;
        credentials.domo_scope.workflow = true;
        credentials
    }

    /// Asks for the account scope too.
    pub fn with_account_scope(self) -> (credentials: Self)
        ensures
            credentials@ == (DomoClientAppCredentialsView {
                domo_scope: DomoScope { account: true, ..self.domo_scope },
                ..self@
            }),
            credentials@.has_scope(),
    {
        let mut credentials = self;
        credentials.domo_scope.account = true;
        credentials
    }

    /// Puts a token in the cache and keeps the rest.
    pub fn token_info(self, token: DomoToken) -> (credentials: Self)
        ensures
            credentials@ == (DomoClientAppCredentialsView { token: Some(token@), ..self@ }),
    {
        let mut credentials = self;
        credentials.token = Some(token);
        credentials
    }

    /// Tests whether the client id or the client secret is missing.
    pub fn missing_credentials(&self) -> (missing: bool)
        ensures
            missing == self@.is_incomplete(),
    {
        if self.client_id.as_str().is_empty() {
            true
        } else {
            self.client_secret.as_str().is_empty()
        }
    }

    /// Finishes the construction. The credentials pass through unchanged,
    /// complete or not: `missing_credentials` tells which.
    pub fn build(self) -> (credentials: Self)
        ensures
            credentials == self,
    {
        self
    }

    /// Decides how to come by an access token: the cached one is used as it
    /// is, with no look at its age, and only without one is the token
    /// endpoint to be asked.
    pub fn get_access_token(&self) -> (step: TokenStep)
        ensures
            step@ == self@.next_step(),
    {
        match &self.token {
            Some(token) => TokenStep::Cached(token.access_token.clone()),
            None => TokenStep::Fetch(self.request_access_token()),
        }
    }

    /// Describes the request that asks for a token with the configured scopes.
    pub fn request_access_token(&self) -> (request: HttpRequest)
        ensures
            request@ == self@.request(),
    {
        let scopes = self.domo_scope.scope_string();
        self.fetch_access_token(self.client_id.as_str(), self.client_secret.as_str(), scopes.as_str())
    }

    /// Describes the request that asks for a token with the given scope
    /// parameter.
    pub fn fetch_access_token(&self, client_id: &str, client_secret: &str, params: &str) -> (request:
        HttpRequest)
        ensures
            request@ == token_request(client_id@, client_secret@, params@),
    {
        fetch_access_token(client_id, client_secret, params)
    }

    /// Takes the reply of the token endpoint. A reply that brings a token
    /// puts it in the cache and yields its access token; any other reply
    /// yields its failure and leaves the credentials as they were.
    pub fn receive_access_token(&mut self, reply: &HttpReply) -> (result: Result<String, AuthError>)
        ensures
            final(self)@ == old(self)@.with_reply(reply@),
            token_outcome(reply@) is Err ==> *final(self) == *old(self),
            match access_token_of(reply@) {
                Ok(token) => result matches Ok(t) && t@ == token,
                Err(e) => result matches Err(err) && err == e,
            },
    {
        match DomoToken::from_reply(reply) {
            Ok(token) => {
                let access_token = token.access_token.clone();
                self.token = Some(token);
                Ok(access_token)
            },
            Err(e) => Err(e),
        }
    }
}

/// With a token in the cache the next step uses that token and sends
/// nothing, however often it is asked for.
pub proof fn lemma_cached_token_is_used(credentials: DomoClientAppCredentialsView)
    requires
        credentials.token is Some,
    ensures
        credentials.next_step() == TokenStepView::Cached(credentials.token->0.access_token),
{
}

/// After a reply that brought a token, the next step yields the access token
/// that the reply yielded, and sends nothing.
pub proof fn lemma_received_token_is_cached(
    credentials: DomoClientAppCredentialsView,
    reply: HttpReplyView,
)
    requires
        token_outcome(reply) is Ok,
    ensures
        access_token_of(reply) is Ok,
        credentials.with_reply(reply).next_step() == TokenStepView::Cached(
            access_token_of(reply)->Ok_0,
        ),
{
}

/// A reply that brought no token changes nothing: the next step is what it
/// was before.
pub proof fn lemma_failed_reply_keeps_state(
    credentials: DomoClientAppCredentialsView,
    reply: HttpReplyView,
)
    requires
        token_outcome(reply) is Err,
    ensures
        credentials.with_reply(reply) == credentials,
        access_token_of(reply) == Err::<Seq<char>, AuthError>(token_outcome(reply)->Err_0),
{
}

} // verus!
