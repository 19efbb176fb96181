//! The identity protocol's request body, modeled as plain values.
//!
//! The wire payload is a nested JSON document describing password identity
//! and an optional project scope.  The embedding application serializes
//! these values; the library only builds and inspects them.

use vstd::prelude::*;

verus! {

/// The abstract value of a [`Domain`].
pub struct DomainView {
    pub name: Seq<char>,
}

/// A domain reference, by name.
#[derive(Debug)]
pub struct Domain {
    pub name: String,
}

impl View for Domain {
    type V = DomainView;

    open spec fn view(&self) -> DomainView {
        DomainView { name: self.name@ }
    }
}

impl Clone for Domain {
    fn clone(&self) -> (r: Domain)
        ensures
            r@ == self@,
    {
        Domain { name: self.name.clone() }
    }
}

/// The abstract value of a [`UserAndPassword`].
pub struct UserAndPasswordView {
    pub name: Seq<char>,
    pub password: Seq<char>,
    pub domain: DomainView,
}

/// A user identified by name and domain, with their password.
#[derive(Debug)]
pub struct UserAndPassword {
    pub name: String,
    pub password: String,
    pub domain: Domain,
}

impl View for UserAndPassword {
    type V = UserAndPasswordView;

    open spec fn view(&self) -> UserAndPasswordView {
        UserAndPasswordView { name: self.name@, password: self.password@, domain: self.domain@ }
    }
}

impl Clone for UserAndPassword {
    fn clone(&self) -> (r: UserAndPassword)
        ensures
            r@ == self@,
    {
        UserAndPassword {
            name: self.name.clone(),
            password: self.password.clone(),
            domain: self.domain.clone(),
        }
    }
}

/// The abstract value of a [`PasswordAuth`].
pub struct PasswordAuthView {
    pub user: UserAndPasswordView,
}

/// The `password` member of the identity object.
#[derive(Debug)]
pub struct PasswordAuth {
    pub user: UserAndPassword,
}

impl View for PasswordAuth {
    type V = PasswordAuthView;

    open spec fn view(&self) -> PasswordAuthView {
        PasswordAuthView { user: self.user@ }
    }
}

impl Clone for PasswordAuth {
    fn clone(&self) -> (r: PasswordAuth)
        ensures
            r@ == self@,
    {
        PasswordAuth { user: self.user.clone() }
    }
}

/// The abstract value of a [`PasswordIdentity`].
pub struct PasswordIdentityView {
    pub methods: Seq<Seq<char>>,
    pub password: PasswordAuthView,
}

/// The identity object of the request body: the method list (always exactly
/// `password`) and the user credentials.
#[derive(Debug)]
pub struct PasswordIdentity {
    pub methods: Vec<String>,
    pub password: PasswordAuth,
}

impl View for PasswordIdentity {
    type V = PasswordIdentityView;

    open spec fn view(&self) -> PasswordIdentityView {
        PasswordIdentityView { methods: self.methods.deep_view(), password: self.password@ }
    }
}

impl Clone for PasswordIdentity {
    fn clone(&self) -> (r: PasswordIdentity)
        ensures
            r@ == self@,
    {
        let mut methods: Vec<String> = Vec::new();
        let mut i: usize = 0;
        while i < self.methods.len()
            invariant
                i <= self.methods.len(),
                methods.len() == i,
                forall|j: int|
                    0 <= j < i ==> methods.deep_view()[j] == self.methods.deep_view()[j],
            decreases self.methods.len() - i,
        {
            let ghost prev = methods@;
            let ghost before = methods.deep_view();
            methods.push(self.methods[i].clone());
            proof {
                assert forall|j: int| 0 <= j < i + 1 implies methods.deep_view()[j]
                    == self.methods.deep_view()[j] by {
                    assert(methods.deep_view()[j] == methods@[j].deep_view());
                    if j < i as int {
                        assert(methods@[j] == prev[j]);
                        assert(before[j] == prev[j].deep_view());
                    }
                }
            }
            i = i + 1;
        }
        proof {
            assert(methods.deep_view() =~= self.methods.deep_view());
        }
        PasswordIdentity { methods, password: self.password.clone() }
    }
}

/// The view of the identity object built for the given user credentials.
pub open spec fn password_identity_view(
    name: Seq<char>,
    password: Seq<char>,
    domain: Seq<char>,
) -> PasswordIdentityView {
    PasswordIdentityView {
        methods: seq!["password"@],
        password: PasswordAuthView {
            user: UserAndPasswordView { name, password, domain: DomainView { name: domain } },
        },
    }
}

impl PasswordIdentity {
    /// The identity object for password authentication of the given user.
    pub fn new(user_name: &str, password: &str, user_domain_name: &str) -> (r: PasswordIdentity)
        ensures
            r@ == password_identity_view(user_name@, password@, user_domain_name@),
    {
        let mut methods: Vec<String> = Vec::new();
        methods.push("password".to_owned());
        proof {
            assert(methods.deep_view() =~= seq!["password"@]);
        }
        PasswordIdentity {
            methods,
            password: PasswordAuth {
                user: UserAndPassword {
                    name: user_name.to_owned(),
                    password: password.to_owned(),
                    domain: Domain { name: user_domain_name.to_owned() },
                },
            },
        }
    }
}

/// The abstract value of a [`Project`].
pub struct ProjectView {
    pub name: Seq<char>,
    pub domain: DomainView,
}

/// A project reference, by name and domain.
#[derive(Debug)]
pub struct Project {
    pub name: String,
    pub domain: Domain,
}

impl View for Project {
    type V = ProjectView;

    open spec fn view(&self) -> ProjectView {
        ProjectView { name: self.name@, domain: self.domain@ }
    }
}

impl Clone for Project {
    fn clone(&self) -> (r: Project)
        ensures
            r@ == self@,
    {
        Project { name: self.name.clone(), domain: self.domain.clone() }
    }
}

/// The abstract value of a [`ProjectScope`].
pub struct ProjectScopeView {
    pub project: ProjectView,
}

/// Scoping of the authentication to one project.
#[derive(Debug)]
pub struct ProjectScope {
    pub project: Project,
}

impl View for ProjectScope {
    type V = ProjectScopeView;

    open spec fn view(&self) -> ProjectScopeView {
        ProjectScopeView { project: self.project@ }
    }
}

impl Clone for ProjectScope {
    fn clone(&self) -> (r: ProjectScope)
        ensures
            r@ == self@,
    {
        ProjectScope { project: self.project.clone() }
    }
}

/// The view of the scope built for the given project.
pub open spec fn project_scope_view(name: Seq<char>, domain: Seq<char>) -> ProjectScopeView {
    ProjectScopeView {
        project: ProjectView { name, domain: DomainView { name: domain } },
    }
}

impl ProjectScope {
    /// A scope naming the given project and project domain.
    pub fn new(project_name: &str, project_domain_name: &str) -> (r: ProjectScope)
        ensures
            r@ == project_scope_view(project_name@, project_domain_name@),
    {
        ProjectScope {
            project: Project {
                name: project_name.to_owned(),
                domain: Domain { name: project_domain_name.to_owned() },
            },
        }
    }
}

/// The abstract value of an [`Auth`].
pub struct AuthView {
    pub identity: PasswordIdentityView,
    pub scope: Option<ProjectScopeView>,
}

/// The `auth` member of the request body.
#[derive(Debug)]
pub struct Auth {
    pub identity: PasswordIdentity,
    pub scope: Option<ProjectScope>,
}

impl View for Auth {
    type V = AuthView;

    open spec fn view(&self) -> AuthView {
        AuthView {
            identity: self.identity@,
            scope: match self.scope {
                Some(ref s) => Some(s@),
                None => None,
            },
        }
    }
}

impl Clone for Auth {
    fn clone(&self) -> (r: Auth)
        ensures
            r@ == self@,
    {
        Auth {
            identity: self.identity.clone(),
            scope: match &self.scope {
                Some(s) => Some(s.clone()),
                None => None,
            },
        }
    }
}

/// The abstract value of a [`ProjectScopedAuthRoot`].
pub struct AuthRootView {
    pub auth: AuthView,
}

/// The whole request body posted to the token endpoint.
#[derive(Debug)]
pub struct ProjectScopedAuthRoot {
    pub auth: Auth,
}

impl View for ProjectScopedAuthRoot {
    type V = AuthRootView;

    open spec fn view(&self) -> AuthRootView {
        AuthRootView { auth: self.auth@ }
    }
}

impl Clone for ProjectScopedAuthRoot {
    fn clone(&self) -> (r: ProjectScopedAuthRoot)
        ensures
            r@ == self@,
    {
        ProjectScopedAuthRoot { auth: self.auth.clone() }
    }
}

impl ProjectScopedAuthRoot {
    /// The request body for the given identity and optional scope.
    pub fn new(identity: PasswordIdentity, scope: Option<ProjectScope>) -> (r:
        ProjectScopedAuthRoot)
        ensures
            r@.auth.identity == identity@,
            r@.auth.scope == match scope {
                Some(s) => Some(s@),
                None => None::<ProjectScopeView>,
            },
    {
        ProjectScopedAuthRoot { auth: Auth { identity, scope } }
    }
}

} // verus!
