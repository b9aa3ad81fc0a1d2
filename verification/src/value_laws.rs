//! What holds of values: of processes that wrap them, of converted JSON, of
//! trimmed text.
use vstd::prelude::*;

use crate::errors::ErrorView;
use crate::json::{distinct_keys, well_formed, JsonView, NumberView};
use crate::par::{ExprView, ParView, UnforgeableView};
use crate::rho_type::{bool_of, bool_par, bytes_of, bytes_par, deploy_id_par, deployer_id_of};
use crate::rho_type::{deployer_id_par, is_sys_auth_token, list_of, list_par, map_par, name_of};
use crate::rho_type::{name_par, nil, number_of, number_par, string_of, string_par};
use crate::rho_type::{sys_auth_token_par, tuple_of, tuple_par, uri_of, uri_par};
use crate::swi_prolog_service::{conversion, field_models, first_misfit, fits, model};
use crate::swi_prolog_service::{models, numbers, numbers_in_fields, numbers_in_values};
use crate::swi_prolog_service::{lemma_first_misfit_concat, lemma_misfit_in_fields};
use crate::swi_prolog_service::{lemma_misfit_in_values, run_conversion};
use crate::text::{digit, int_text, is_white_space, nat_text, trimmed};

verus! {

// ---------------------------------------------------------------------------
// Values
// ---------------------------------------------------------------------------
/// What is wrapped up as a process is read out again, and is not taken for
/// anything else.
pub proof fn law_values_read_back(
    b: bool,
    n: i64,
    s: Seq<char>,
    bytes: Seq<u8>,
    ps: Seq<ParView>,
)
    ensures
        bool_of(bool_par(b)) == Some(b),
        number_of(number_par(n)) == Some(n),
        string_of(string_par(s)) == Some(s) && uri_of(string_par(s)) is None,
        uri_of(uri_par(s)) == Some(s) && string_of(uri_par(s)) is None,
        bytes_of(bytes_par(bytes)) == Some(bytes),
        list_of(list_par(ps)) == Some(ps) && tuple_of(list_par(ps)) is None,
        tuple_of(tuple_par(ps)) == Some(ps) && list_of(tuple_par(ps)) is None,
        name_of(name_par(bytes)) == Some(bytes) && deployer_id_of(name_par(bytes)) is None,
        deployer_id_of(deployer_id_par(bytes)) == Some(bytes),
        name_of(deployer_id_par(bytes)) is None,
        is_sys_auth_token(sys_auth_token_par()),
        !is_sys_auth_token(name_par(bytes)) && !is_sys_auth_token(deployer_id_par(bytes)),
        string_of(nil()) is None && bytes_of(nil()) is None && name_of(nil()) is None,
{
}

/// A process that is one expression and nothing else.
pub open spec fn is_expr(p: ParView, e: ExprView) -> bool {
    &&& p.exprs == seq![e]
    &&& p.processes.len() == 0
    &&& p.unforgeables.len() == 0
    &&& p.bundles.len() == 0
    &&& p.connectives.len() == 0
}

/// A process that is one unforgeable name and nothing else.
pub open spec fn is_unforgeable(p: ParView, u: UnforgeableView) -> bool {
    &&& p.unforgeables == seq![u]
    &&& p.processes.len() == 0
    &&& p.exprs.len() == 0
    &&& p.bundles.len() == 0
    &&& p.connectives.len() == 0
}

/// A process that wraps a value is that value, with nothing beside it; `Nil` is
/// nothing at all.
pub proof fn law_a_wrapped_value_stands_alone(
    b: bool,
    n: i64,
    s: Seq<char>,
    bytes: Seq<u8>,
    ps: Seq<ParView>,
    kvs: Seq<(ParView, ParView)>,
)
    ensures
        is_expr(bool_par(b), ExprView::GBool(b)),
        is_expr(number_par(n), ExprView::GInt(n)),
        is_expr(string_par(s), ExprView::GString(s)),
        is_expr(uri_par(s), ExprView::GUri(s)),
        is_expr(bytes_par(bytes), ExprView::GByteArray(bytes)),
        is_expr(list_par(ps), ExprView::EListBody(ps)),
        is_expr(tuple_par(ps), ExprView::ETupleBody(ps)),
        is_expr(map_par(kvs), ExprView::EMapBody(kvs)),
        is_unforgeable(name_par(bytes), UnforgeableView::GPrivateBody(bytes)),
        is_unforgeable(deploy_id_par(bytes), UnforgeableView::GDeployIdBody(bytes)),
        is_unforgeable(deployer_id_par(bytes), UnforgeableView::GDeployerIdBody(bytes)),
        is_unforgeable(sys_auth_token_par(), UnforgeableView::GSysAuthTokenBody),
        nil().processes.len() == 0 && nil().exprs.len() == 0 && nil().unforgeables.len() == 0,
        nil().bundles.len() == 0 && nil().connectives.len() == 0,
{
}

/// A process from which an expression is read: it has that one, and no process term
/// and no bundle beside it.
pub open spec fn shows_expr(p: ParView, e: ExprView) -> bool {
    p.processes.len() == 0 && p.bundles.len() == 0 && p.exprs.len() == 1 && p.exprs[0] == e
}

/// A process from which an unforgeable name is read: it has that one, and no process
/// term, no expression and no bundle beside it.
pub open spec fn shows_unforgeable(p: ParView, u: UnforgeableView) -> bool {
    p.processes.len() == 0 && p.exprs.len() == 0 && p.bundles.len() == 0 && p.unforgeables.len()
        == 1 && p.unforgeables[0] == u
}

/// A value is read out of a process exactly if the process shows that value.
pub proof fn law_a_value_is_read_where_it_is_shown(
    p: ParView,
    b: bool,
    n: i64,
    s: Seq<char>,
    bytes: Seq<u8>,
    ps: Seq<ParView>,
)
    ensures
        bool_of(p) == Some(b) <==> shows_expr(p, ExprView::GBool(b)),
        number_of(p) == Some(n) <==> shows_expr(p, ExprView::GInt(n)),
        string_of(p) == Some(s) <==> shows_expr(p, ExprView::GString(s)),
        uri_of(p) == Some(s) <==> shows_expr(p, ExprView::GUri(s)),
        bytes_of(p) == Some(bytes) <==> shows_expr(p, ExprView::GByteArray(bytes)),
        list_of(p) == Some(ps) <==> shows_expr(p, ExprView::EListBody(ps)),
        tuple_of(p) == Some(ps) <==> shows_expr(p, ExprView::ETupleBody(ps)),
        name_of(p) == Some(bytes) <==> shows_unforgeable(p, UnforgeableView::GPrivateBody(bytes)),
        deployer_id_of(p) == Some(bytes) <==> shows_unforgeable(
            p,
            UnforgeableView::GDeployerIdBody(bytes),
        ),
        is_sys_auth_token(p) <==> shows_unforgeable(p, UnforgeableView::GSysAuthTokenBody),
{
}

// ---------------------------------------------------------------------------
// Numerals
// ---------------------------------------------------------------------------
/// The number that decimal digits write.
pub open spec fn read_digits(s: Seq<char>) -> int
    decreases s.len(),
{
    if s.len() == 0 {
        0
    } else {
        read_digits(s.drop_last()) * 10 + (s.last() as int - '0' as int)
    }
}

/// A numeral holds digits alone, none of them a zero that could be left out, and
/// writes its number; that of a number below zero has a sign before it.
pub proof fn law_a_numeral_writes_its_number(n: nat)
    ensures
        nat_text(n).len() > 0,
        forall|i: int| 0 <= i < nat_text(n).len() ==> '0' <= #[trigger] nat_text(n)[i] <= '9',
        n > 0 ==> nat_text(n)[0] != '0',
        n == 0 ==> nat_text(n).len() == 1,
        read_digits(nat_text(n)) == n,
        int_text(n as int) == nat_text(n),
        n > 0 ==> int_text(-n) == seq!['-'] + nat_text(n),
    decreases n,
{
    let s = nat_text(n);
    if n < 10 {
        assert(s.drop_last() =~= Seq::<char>::empty());
        assert(read_digits(s.drop_last()) == 0);
        assert(s.last() as int == '0' as int + n);
    } else {
        law_a_numeral_writes_its_number(n / 10);
        let before = nat_text(n / 10);
        assert(s == before.push(digit(n % 10)));
        assert(s.drop_last() =~= before);
        assert(s.last() as int == '0' as int + n % 10);
        assert forall|i: int| 0 <= i < s.len() implies '0' <= #[trigger] s[i] <= '9' by {
            if i < before.len() {
                assert(s[i] == before[i]);
            }
        }
        assert(s[0] == before[0]);
    }
}

// ---------------------------------------------------------------------------
// JSON values as processes
// ---------------------------------------------------------------------------
/// The first misfit of numbers comes behind numbers that all fit; there is none
/// exactly if all of them fit.
pub proof fn law_first_misfit(ns: Seq<NumberView>)
    ensures
        match first_misfit(ns) {
            None => forall|i: int| 0 <= i < ns.len() ==> fits(#[trigger] ns[i]),
            Some(n) => exists|i: int|
                0 <= i < ns.len() && n == #[trigger] ns[i] && !fits(n) && forall|k: int|
                    0 <= k < i ==> fits(#[trigger] ns[k]),
        },
    decreases ns.len(),
{
    if ns.len() > 0 && fits(ns[0]) {
        let rest = ns.drop_first();
        law_first_misfit(rest);
        match first_misfit(rest) {
            None => {
                assert forall|i: int| 0 <= i < ns.len() implies fits(#[trigger] ns[i]) by {
                    if i > 0 {
                        assert(ns[i] == rest[i - 1]);
                    }
                }
            },
            Some(n) => {
                let i = choose|i: int|
                    0 <= i < rest.len() && n == #[trigger] rest[i] && !fits(n) && forall|k: int|
                        0 <= k < i ==> fits(#[trigger] rest[k]);
                assert(ns[i + 1] == n);
                assert forall|k: int| 0 <= k < i + 1 implies fits(#[trigger] ns[k]) by {
                    if k > 0 {
                        assert(ns[k] == rest[k - 1]);
                    }
                }
            },
        }
    }
}

/// A JSON value is converted exactly if each number in it, however deep, is an
/// integer in the range of `i64`.
pub proof fn law_converted_iff_all_numbers_fit(j: JsonView)
    ensures
        conversion(j) is Ok <==> forall|i: int|
            0 <= i < numbers(j).len() ==> fits(#[trigger] numbers(j)[i]),
{
    law_first_misfit(numbers(j));
}

/// A run takes what it is told for the process that the value is converted to, and
/// fails exactly where the conversion does.
pub proof fn law_a_run_converts_alike(j: JsonView)
    ensures
        match conversion(j) {
            Ok(p) => run_conversion(j) == Ok::<ParView, ErrorView>(p),
            Err(_) => run_conversion(j) is Err,
        },
{
}

/// A JSON value that has no parts is converted to the process that is it: an integer
/// to that integer, a boolean, a string, `null` to `Nil`.
pub proof fn law_a_plain_value_stays_what_it_is(u: u64, i: i64, b: bool, s: Seq<char>)
    ensures
        u <= i64::MAX ==> (conversion(JsonView::Number(NumberView::PosInt(u))) matches Ok(p)
            && number_of(p) is Some && number_of(p)->0 == u && is_expr(
            p,
            ExprView::GInt(number_of(p)->0),
        )),
        conversion(JsonView::Number(NumberView::NegInt(i))) matches Ok(p) && is_expr(
            p,
            ExprView::GInt(i),
        ) && number_of(p) == Some(i),
        conversion(JsonView::Bool(b)) matches Ok(p) && is_expr(p, ExprView::GBool(b)) && bool_of(p)
            == Some(b),
        conversion(JsonView::String(s)) matches Ok(p) && is_expr(p, ExprView::GString(s))
            && string_of(p) == Some(s),
        conversion(JsonView::Null) == Ok::<ParView, ErrorView>(nil()),
{
    lemma_one_number(NumberView::PosInt(u));
    lemma_one_number(NumberView::NegInt(i));
}

/// A number that is no integer in the range of `i64` is refused, with words that tell
/// it. A run that told such an integer is refused in words that do not.
pub proof fn law_other_numbers_are_refused(u: u64, s: Seq<char>)
    ensures
        u > i64::MAX ==> conversion(JsonView::Number(NumberView::PosInt(u))) == Err::<
            ParView,
            ErrorView,
        >(
            ErrorView::SwiplError(
                "Number exceeds i64 range. Got: "@ + nat_text(u as nat)
                    + ". Only integers in the range -9223372036854775808 to 9223372036854775807 are allowed."@,
            ),
        ),
        u > i64::MAX ==> run_conversion(JsonView::Number(NumberView::PosInt(u))) == Err::<
            ParView,
            ErrorView,
        >(ErrorView::SwiplError("Could not parse number as i64"@)),
        conversion(JsonView::Number(NumberView::Float(s))) == Err::<ParView, ErrorView>(
            ErrorView::SwiplError(
                "Floating-point numbers are not supported. Got: "@ + s
                    + ". Only integers in the range -9223372036854775808 to 9223372036854775807 are allowed."@,
            ),
        ),
        run_conversion(JsonView::Number(NumberView::Float(s))) == conversion(
            JsonView::Number(NumberView::Float(s)),
        ),
{
    lemma_one_number(NumberView::PosInt(u));
    lemma_one_number(NumberView::Float(s));
}

proof fn lemma_one_number(n: NumberView)
    ensures
        first_misfit(numbers(JsonView::Number(n))) == (if fits(n) {
            None
        } else {
            Some(n)
        }),
{
    let ns = numbers(JsonView::Number(n));
    assert(ns =~= seq![n]);
    assert(ns.drop_first() =~= Seq::empty());
    assert(first_misfit(ns.drop_first()) is None);
}

/// Values are converted by what they are converted to, one for one.
pub open spec fn converted(vs: Seq<JsonView>, ps: Seq<ParView>) -> bool {
    &&& ps.len() == vs.len()
    &&& forall|i: int|
        0 <= i < vs.len() ==> conversion(#[trigger] vs[i]) == Ok::<ParView, ErrorView>(ps[i])
}

/// An array whose values are converted one by one is converted to the list of them;
/// an object, to the map from its keys to them, in their order.
pub proof fn law_parts_are_converted_one_by_one(
    vs: Seq<JsonView>,
    keys: Seq<Seq<char>>,
    ps: Seq<ParView>,
)
    requires
        converted(vs, ps),
        keys.len() == vs.len(),
    ensures
        conversion(JsonView::Array(vs)) matches Ok(p) && is_expr(p, ExprView::EListBody(ps)),
        ({
            let fs = Seq::new(vs.len(), |i: int| (keys[i], vs[i]));
            let entries = Seq::new(vs.len(), |i: int| (string_par(keys[i]), ps[i]));
            conversion(JsonView::Object(fs)) matches Ok(p) && is_expr(
                p,
                ExprView::EMapBody(entries),
            )
        }),
{
    let fs = Seq::new(vs.len(), |i: int| (keys[i], vs[i]));
    let entries = Seq::new(vs.len(), |i: int| (string_par(keys[i]), ps[i]));
    assert forall|i: int| 0 <= i < vs.len() implies first_misfit(numbers(#[trigger] vs[i])) is None
        && model(vs[i]) == ps[i] by {
        assert(conversion(vs[i]) == Ok::<ParView, ErrorView>(ps[i]));
    }
    assert forall|i: int| 0 <= i < fs.len() implies first_misfit(
        numbers((#[trigger] fs[i]).1),
    ) is None && model(fs[i].1) == ps[i] by {
        assert(fs[i].1 == vs[i]);
    }
    lemma_no_misfit_in_values(vs, vs.len());
    lemma_no_misfit_in_fields(fs, fs.len());
    assert(models(vs) =~= ps);
    assert(field_models(fs) =~= entries);
}

/// An array or an object of which a value is refused is refused in the words for the
/// first such value.
pub proof fn law_the_first_refusal_counts(
    vs: Seq<JsonView>,
    keys: Seq<Seq<char>>,
    ps: Seq<ParView>,
    i: int,
)
    requires
        0 <= i < vs.len(),
        converted(vs.take(i), ps),
        conversion(vs[i]) is Err,
        keys.len() == vs.len(),
    ensures
        conversion(JsonView::Array(vs)) == conversion(vs[i]),
        run_conversion(JsonView::Array(vs)) == run_conversion(vs[i]),
        ({
            let fs = Seq::new(vs.len(), |k: int| (keys[k], vs[k]));
            &&& conversion(JsonView::Object(fs)) == conversion(vs[i])
            &&& run_conversion(JsonView::Object(fs)) == run_conversion(vs[i])
        }),
{
    let fs = Seq::new(vs.len(), |k: int| (keys[k], vs[k]));
    let n = i as nat;
    assert forall|k: int| 0 <= k < n implies first_misfit(numbers(#[trigger] vs[k])) is None by {
        assert(vs.take(i)[k] == vs[k]);
        assert(conversion(vs.take(i)[k]) == Ok::<ParView, ErrorView>(ps[k]));
    }
    assert forall|k: int| 0 <= k < n implies first_misfit(numbers((#[trigger] fs[k]).1)) is None by {
        assert(fs[k].1 == vs[k]);
    }
    lemma_no_misfit_in_values(vs, n);
    lemma_no_misfit_in_fields(fs, n);
    lemma_first_misfit_concat(numbers_in_values(vs, n), numbers(vs[i]));
    lemma_first_misfit_concat(numbers_in_fields(fs, n), numbers(fs[i].1));
    lemma_misfit_in_values(vs, (i + 1) as nat, vs.len());
    lemma_misfit_in_fields(fs, (i + 1) as nat, fs.len());
}

proof fn lemma_no_misfit_in_values(vs: Seq<JsonView>, n: nat)
    requires
        n <= vs.len(),
        forall|i: int| 0 <= i < n ==> first_misfit(numbers(#[trigger] vs[i])) is None,
    ensures
        first_misfit(numbers_in_values(vs, n)) is None,
    decreases n,
{
    if n > 0 {
        lemma_no_misfit_in_values(vs, (n - 1) as nat);
        lemma_first_misfit_concat(numbers_in_values(vs, (n - 1) as nat), numbers(vs[n - 1]));
    }
}

proof fn lemma_no_misfit_in_fields(fs: Seq<(Seq<char>, JsonView)>, n: nat)
    requires
        n <= fs.len(),
        forall|i: int| 0 <= i < n ==> first_misfit(numbers((#[trigger] fs[i]).1)) is None,
    ensures
        first_misfit(numbers_in_fields(fs, n)) is None,
    decreases n,
{
    if n > 0 {
        lemma_no_misfit_in_fields(fs, (n - 1) as nat);
        lemma_first_misfit_concat(numbers_in_fields(fs, (n - 1) as nat), numbers(fs[n - 1].1));
    }
}

proof fn lemma_values_all_fit(vs: Seq<JsonView>, n: nat, k: int)
    requires
        0 <= k < n <= vs.len(),
        first_misfit(numbers_in_values(vs, n)) is None,
    ensures
        first_misfit(numbers(vs[k])) is None,
    decreases n,
{
    lemma_first_misfit_concat(
        numbers_in_values(vs, (n - 1) as nat),
        numbers(vs[n - 1]),
    );
    if k < n - 1 {
        lemma_values_all_fit(vs, (n - 1) as nat, k);
    }
}

proof fn lemma_fields_all_fit(fs: Seq<(Seq<char>, JsonView)>, n: nat, k: int)
    requires
        0 <= k < n <= fs.len(),
        first_misfit(numbers_in_fields(fs, n)) is None,
    ensures
        first_misfit(numbers(fs[k].1)) is None,
    decreases n,
{
    lemma_first_misfit_concat(
        numbers_in_fields(fs, (n - 1) as nat),
        numbers(fs[n - 1].1),
    );
    if k < n - 1 {
        lemma_fields_all_fit(fs, (n - 1) as nat, k);
    }
}

/// The parts of a converted array and of a converted object are converted one
/// by one: as many of them, in their order, each by itself.
pub proof fn law_conversion_of_parts(vs: Seq<JsonView>, fs: Seq<(Seq<char>, JsonView)>, i: int)
    ensures
        conversion(JsonView::Array(vs)) matches Ok(p) ==> list_of(p) matches Some(ps) && ps.len()
            == vs.len() && (0 <= i < vs.len() ==> conversion(vs[i]) == Ok::<ParView, ErrorView>(
            ps[i],
        )),
        conversion(JsonView::Object(fs)) is Ok && 0 <= i < fs.len() ==> conversion(fs[i].1) == Ok::<
            ParView,
            ErrorView,
        >(field_models(fs)[i].1) && field_models(fs)[i].0 == string_par(fs[i].0),
{
    if conversion(JsonView::Array(vs)) is Ok && 0 <= i < vs.len() {
        lemma_values_all_fit(vs, vs.len(), i);
        assert(models(vs)[i] == model(vs[i]));
    }
    if conversion(JsonView::Object(fs)) is Ok && 0 <= i < fs.len() {
        lemma_fields_all_fit(fs, fs.len(), i);
        assert(field_models(fs)[i] == (string_par(fs[i].0), model(fs[i].1)));
    }
}

/// The expression that stands for a value, if any does.
spec fn model_expr(j: JsonView) -> Option<ExprView> {
    match j {
        JsonView::Null => None,
        JsonView::Bool(b) => Some(ExprView::GBool(b)),
        JsonView::Number(NumberView::PosInt(u)) => Some(ExprView::GInt(u as i64)),
        JsonView::Number(NumberView::NegInt(i)) => Some(ExprView::GInt(i)),
        JsonView::Number(NumberView::Float(_)) => None,
        JsonView::String(s) => Some(ExprView::GString(s)),
        JsonView::Array(vs) => Some(ExprView::EListBody(models(vs))),
        JsonView::Object(fs) => Some(ExprView::EMapBody(field_models(fs))),
    }
}

proof fn lemma_model_expr(j: JsonView)
    requires
        conversion(j) is Ok,
    ensures
        j matches JsonView::Number(n) ==> fits(n),
        match model_expr(j) {
            Some(e) => model(j).exprs.len() == 1 && model(j).exprs[0] == e,
            None => model(j).exprs.len() == 0,
        },
{
    if j is Number {
        law_first_misfit(numbers(j));
        assert(numbers(j)[0] == j->Number_0);
    }
}

/// A process determines the value that it stands for: two values that are
/// converted to the same process are the same.
pub proof fn law_conversion_loses_nothing(a: JsonView, b: JsonView)
    requires
        well_formed(a),
        well_formed(b),
        conversion(a) is Ok,
        conversion(b) == conversion(a),
    ensures
        a == b,
    decreases a,
{
    lemma_model_expr(a);
    lemma_model_expr(b);
    assert(model_expr(a) == model_expr(b));
    match a {
        JsonView::Array(vs) => {
            let ws = b->Array_0;
            assert(models(vs) == models(ws));
            assert(vs.len() == models(vs).len() && ws.len() == models(ws).len());
            assert forall|i: int| 0 <= i < vs.len() implies vs[i] == ws[i] by {
                lemma_values_all_fit(vs, vs.len(), i);
                lemma_values_all_fit(ws, ws.len(), i);
                assert(models(vs)[i] == model(vs[i]) && models(ws)[i] == model(ws[i]));
                law_conversion_loses_nothing(vs[i], ws[i]);
            }
            assert(vs =~= ws);
        },
        JsonView::Object(fs) => {
            let gs = b->Object_0;
            assert(field_models(fs) == field_models(gs));
            assert(fs.len() == field_models(fs).len() && gs.len() == field_models(gs).len());
            assert forall|i: int| 0 <= i < fs.len() implies fs[i] == gs[i] by {
                lemma_fields_all_fit(fs, fs.len(), i);
                lemma_fields_all_fit(gs, gs.len(), i);
                assert(field_models(fs)[i] == (string_par(fs[i].0), model(fs[i].1)));
                assert(field_models(gs)[i] == (string_par(gs[i].0), model(gs[i].1)));
                law_values_read_back(true, 0, fs[i].0, Seq::empty(), Seq::empty());
                law_values_read_back(true, 0, gs[i].0, Seq::empty(), Seq::empty());
                law_conversion_loses_nothing(fs[i].1, gs[i].1);
            }
            assert(fs =~= gs);
        },
        _ => {},
    }
}

/// The keys of a converted object stay distinct.
pub proof fn law_converted_keys_stay_distinct(fs: Seq<(Seq<char>, JsonView)>, i: int, j: int)
    requires
        distinct_keys(fs),
        0 <= i < j < fs.len(),
    ensures
        field_models(fs)[i].0 != field_models(fs)[j].0,
{
    assert(field_models(fs)[i] == (string_par(fs[i].0), model(fs[i].1)));
    assert(field_models(fs)[j] == (string_par(fs[j].0), model(fs[j].1)));
    law_values_read_back(true, 0, fs[i].0, Seq::empty(), Seq::empty());
    law_values_read_back(true, 0, fs[j].0, Seq::empty(), Seq::empty());
}

/// A text without what stands before `a` and from `b` on, which is white space.
pub open spec fn is_trim(s: Seq<char>, t: Seq<char>, a: int, b: int) -> bool {
    &&& 0 <= a <= b <= s.len()
    &&& t == s.subrange(a, b)
    &&& forall|k: int| 0 <= k < a || b <= k < s.len() ==> is_white_space(#[trigger] s[k])
}

proof fn lemma_trim_start(s: Seq<char>, t: Seq<char>, a: int, b: int)
    requires
        s.len() > 0,
        is_white_space(s[0]),
        is_trim(s.drop_first(), t, a, b),
    ensures
        is_trim(s, t, a + 1, b + 1),
{
    let rest = s.drop_first();
    assert(rest.subrange(a, b) =~= s.subrange(a + 1, b + 1));
    assert forall|k: int| 0 <= k < a + 1 || b + 1 <= k < s.len() implies is_white_space(
        #[trigger] s[k],
    ) by {
        if k > 0 {
            assert(s[k] == rest[k - 1]);
        }
    }
}

proof fn lemma_trim_end(s: Seq<char>, t: Seq<char>, a: int, b: int)
    requires
        s.len() > 0,
        is_white_space(s.last()),
        is_trim(s.drop_last(), t, a, b),
    ensures
        is_trim(s, t, a, b),
{
    let rest = s.drop_last();
    assert(rest.subrange(a, b) =~= s.subrange(a, b));
    assert forall|k: int| 0 <= k < a || b <= k < s.len() implies is_white_space(
        #[trigger] s[k],
    ) by {
        if k < s.len() - 1 {
            assert(s[k] == rest[k]);
        }
    }
}

/// A text that has been trimmed has no white space at its ends, and nothing but
/// white space was taken off.
pub proof fn law_trimmed(s: Seq<char>)
    ensures
        trimmed(s).len() > 0 ==> !is_white_space(trimmed(s)[0]) && !is_white_space(
            trimmed(s).last(),
        ),
        exists|a: int, b: int| #[trigger] is_trim(s, trimmed(s), a, b),
    decreases s.len(),
{
    if s.len() > 0 && is_white_space(s[0]) {
        law_trimmed(s.drop_first());
        let (a, b) = choose|a: int, b: int|
            #[trigger] is_trim(s.drop_first(), trimmed(s.drop_first()), a, b);
        lemma_trim_start(s, trimmed(s), a, b);
    } else if s.len() > 0 && is_white_space(s.last()) {
        law_trimmed(s.drop_last());
        let (a, b) = choose|a: int, b: int|
            #[trigger] is_trim(s.drop_last(), trimmed(s.drop_last()), a, b);
        lemma_trim_end(s, trimmed(s), a, b);
    } else {
        assert(s.subrange(0, s.len() as int) =~= s);
        assert(is_trim(s, trimmed(s), 0, s.len() as int));
    }
}

} // verus!
