//! Binding of `CREATE VIEW`, `ALTER VIEW` and `DROP VIEW` statements to plans.
use vstd::prelude::*;
use crate::error::ErrorCode;

verus! {

/// A name in a statement, with the quote it was written in, if any.
#[derive(Clone, Debug, PartialEq, Eq)]
pub struct Identifier {
    pub name: String,
    pub quote: Option<char>,
}

/// Whether quoted and unquoted names keep their case.
#[derive(Clone, Copy, Debug, PartialEq, Eq, Structural)]
pub struct NameResolutionContext {
    pub unquoted_ident_case_sensitive: bool,
    pub quoted_ident_case_sensitive: bool,
}

/// `CREATE VIEW [IF NOT EXISTS] [catalog.][database.]view AS query`, with
/// the query as its text.
#[derive(Clone, Debug)]
pub struct CreateViewStmt {
    pub if_not_exists: bool,
    pub catalog: Option<Identifier>,
    pub database: Option<Identifier>,
    pub view: Identifier,
    pub query: String,
}

/// `ALTER VIEW [catalog.][database.]view AS query`.
#[derive(Clone, Debug)]
pub struct AlterViewStmt {
    pub catalog: Option<Identifier>,
    pub database: Option<Identifier>,
    pub view: Identifier,
    pub query: String,
}

/// `DROP VIEW [IF EXISTS] [catalog.][database.]view`.
#[derive(Clone, Debug)]
pub struct DropViewStmt {
    pub if_exists: bool,
    pub catalog: Option<Identifier>,
    pub database: Option<Identifier>,
    pub view: Identifier,
}

#[derive(Clone, Debug)]
pub struct CreateViewPlan {
    pub if_not_exists: bool,
    pub tenant: String,
    pub catalog: String,
    pub database: String,
    pub viewname: String,
    pub subquery: String,
}

#[derive(Clone, Debug)]
pub struct AlterViewPlan {
    pub tenant: String,
    pub catalog: String,
    pub database: String,
    pub viewname: String,
    pub subquery: String,
}

#[derive(Clone, Debug)]
pub struct DropViewPlan {
    pub if_exists: bool,
    pub tenant: String,
    pub catalog: String,
    pub database: String,
    pub viewname: String,
}

/// A plan for a view statement.
#[derive(Clone, Debug)]
pub enum Plan {
    CreateView(Box<CreateViewPlan>),
    AlterView(Box<AlterViewPlan>),
    DropView(Box<DropViewPlan>),
}

/// What a binder reads of its session: the tenant, the current catalog and
/// database, and how names are normalized.
#[derive(Clone, Debug)]
pub struct Binder {
    pub tenant: String,
    pub current_catalog: String,
    pub current_database: String,
    pub name_resolution_ctx: NameResolutionContext,
}

/// The lowercase form of a text, as `str::to_lowercase` computes it.
pub uninterp spec fn lowercase_text(s: Seq<char>) -> Seq<char>;

/// Calls `str::to_lowercase`: each character replaced by its lowercase
/// mapping (as Unicode defines it).  Its text is named by `lowercase_text`.
#[verifier::external_body]
fn to_lowercase(s: &str) -> (r: String)
    ensures
        r@ == lowercase_text(s@),
{
    s.to_lowercase()
}

/// The name `ident` stands for: as written when its kind of name (quoted or
/// unquoted) keeps its case, else lowercased.
pub open spec fn normalized_name(ident: Identifier, ctx: NameResolutionContext) -> Seq<char> {
    if (ident.quote is Some && ctx.quoted_ident_case_sensitive) || (ident.quote is None
        && ctx.unquoted_ident_case_sensitive) {
        ident.name@
    } else {
        lowercase_text(ident.name@)
    }
}

/// The name an optional identifier stands for, or `default` when it is absent.
pub open spec fn name_or(ident: Option<Identifier>, ctx: NameResolutionContext, default: Seq<char>) -> Seq<char> {
    match ident {
        Some(i) => normalized_name(i, ctx),
        None => default,
    }
}

/// The name `ident` stands for under `ctx`.
pub fn normalize_identifier(ident: &Identifier, ctx: &NameResolutionContext) -> (r: String)
    ensures
        r@ == normalized_name(*ident, *ctx),
{
    let quoted = ident.quote.is_some();
    if (quoted && ctx.quoted_ident_case_sensitive) || (!quoted
        && ctx.unquoted_ident_case_sensitive) {
        ident.name.clone()
    } else {
        to_lowercase(ident.name.as_str())
    }
}

fn name_or_default(ident: &Option<Identifier>, ctx: &NameResolutionContext, default: &String) -> (r: String)
    ensures
        r@ == name_or(*ident, *ctx, default@),
{
    match ident {
        Some(i) => normalize_identifier(i, ctx),
        None => default.clone(),
    }
}

impl Binder {
    /// The plan of a `CREATE VIEW`: the view's catalog and database default
    /// to the current ones, names are normalized, and the query is kept as text.
    pub fn bind_create_view(&mut self, stmt: &CreateViewStmt) -> (r: Result<Plan, ErrorCode>)
        ensures
            *final(self) == *old(self),
            r matches Ok(Plan::CreateView(p)) && {
                &&& p.if_not_exists == stmt.if_not_exists
                &&& p.tenant@ == old(self).tenant@
                &&& p.catalog@ == name_or(
                    stmt.catalog,
                    old(self).name_resolution_ctx,
                    old(self).current_catalog@,
                )
                &&& p.database@ == name_or(
                    stmt.database,
                    old(self).name_resolution_ctx,
                    old(self).current_database@,
                )
                &&& p.viewname@ == normalized_name(stmt.view, old(self).name_resolution_ctx)
                &&& p.subquery@ == stmt.query@
            },
    {
        let tenant = self.tenant.clone();
        let catalog = name_or_default(&stmt.catalog, &self.name_resolution_ctx, &self.current_catalog);
        let database = name_or_default(
            &stmt.database,
            &self.name_resolution_ctx,
            &self.current_database,
        );
        let viewname = normalize_identifier(&stmt.view, &self.name_resolution_ctx);
        let subquery = stmt.query.clone();
        let plan = CreateViewPlan {
            if_not_exists: stmt.if_not_exists,
            tenant,
            catalog,
            database,
            viewname,
            subquery,
        };
        Ok(Plan::CreateView(Box::new(plan)))
    }

    /// The plan of an `ALTER VIEW`, bound as `CREATE VIEW` is.
    pub fn bind_alter_view(&mut self, stmt: &AlterViewStmt) -> (r: Result<Plan, ErrorCode>)
        ensures
            *final(self) == *old(self),
            r matches Ok(Plan::AlterView(p)) && {
                &&& p.tenant@ == old(self).tenant@
                &&& p.catalog@ == name_or(
                    stmt.catalog,
                    old(self).name_resolution_ctx,
                    old(self).current_catalog@,
                )
                &&& p.database@ == name_or(
                    stmt.database,
                    old(self).name_resolution_ctx,
                    old(self).current_database@,
                )
                &&& p.viewname@ == normalized_name(stmt.view, old(self).name_resolution_ctx)
                &&& p.subquery@ == stmt.query@
            },
    {
        let tenant = self.tenant.clone();
        let catalog = name_or_default(&stmt.catalog, &self.name_resolution_ctx, &self.current_catalog);
        let database = name_or_default(
            &stmt.database,
            &self.name_resolution_ctx,
            &self.current_database,
        );
        let viewname = normalize_identifier(&stmt.view, &self.name_resolution_ctx);
        let subquery = stmt.query.clone();
        let plan = AlterViewPlan { tenant, catalog, database, viewname, subquery };
        Ok(Plan::AlterView(Box::new(plan)))
    }

    /// The plan of a `DROP VIEW`.
    pub fn bind_drop_view(&mut self, stmt: &DropViewStmt) -> (r: Result<Plan, ErrorCode>)
        ensures
            *final(self) == *old(self),
            r matches Ok(Plan::DropView(p)) && {
                &&& p.if_exists == stmt.if_exists
                &&& p.tenant@ == old(self).tenant@
                &&& p.catalog@ == name_or(
                    stmt.catalog,
                    old(self).name_resolution_ctx,
                    old(self).current_catalog@,
                )
                &&& p.database@ == name_or(
                    stmt.database,
                    old(self).name_resolution_ctx,
                    old(self).current_database@,
                )
                &&& p.viewname@ == normalized_name(stmt.view, old(self).name_resolution_ctx)
            },
    {
        let tenant = self.tenant.clone();
        let catalog = name_or_default(&stmt.catalog, &self.name_resolution_ctx, &self.current_catalog);
        let database = name_or_default(
            &stmt.database,
            &self.name_resolution_ctx,
            &self.current_database,
        );
        let viewname = normalize_identifier(&stmt.view, &self.name_resolution_ctx);
        let plan = DropViewPlan { if_exists: stmt.if_exists, tenant, catalog, database, viewname };
        Ok(Plan::DropView(Box::new(plan)))
    }
}

} // verus!
