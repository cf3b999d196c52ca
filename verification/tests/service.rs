use rustgram::error::decimal;
use rustgram::service::{handle_gram_err, status_to_send};
use rustgram::{r, GramRoute, GramStdHttpErr, IntoResponse, Response, Service, ServiceTransform};

#[test]
fn error_keeps_status_and_message() {
    let err = GramStdHttpErr::new(400, "Bad Request".to_string());
    assert_eq!(err.status, 400);
    assert_eq!(err.msg, "Bad Request");
}

#[test]
fn error_as_text() {
    let err = GramStdHttpErr::new(400, "Bad Request".to_string());
    assert_eq!(err.to_string(), "Http Error with status code: 400 and Message: Bad Request");
    let err = GramStdHttpErr::new(0, String::new());
    assert_eq!(err.to_string(), "Http Error with status code: 0 and Message: ");
    let err = GramStdHttpErr::new(65535, "x".to_string());
    assert_eq!(err.to_string(), "Http Error with status code: 65535 and Message: x");
}

#[test]
fn decimal_digits() {
    assert_eq!(decimal(0), "0");
    assert_eq!(decimal(7), "7");
    assert_eq!(decimal(10), "10");
    assert_eq!(decimal(404), "404");
    assert_eq!(decimal(1234), "1234");
    assert_eq!(decimal(65535), "65535");
    for n in 0..=u16::MAX {
        assert_eq!(decimal(n), format!("{}", n));
    }
}

#[test]
fn text_becomes_a_response_with_status_200() {
    let res: Response = "hello".into_response();
    assert_eq!(res.status, 200);
    assert_eq!(res.body, "hello");

    let res: Response = "hello".to_string().into_response();
    assert_eq!(res.status, 200);
    assert_eq!(res.body, "hello");

    let res = Response::new(String::new());
    assert_eq!(res.status, 200);
    assert_eq!(res.body, "");
}

#[test]
fn a_response_passes_through() {
    let res = Response { status: 418, body: "teapot".to_string() };
    let res: Response = res.into_response();
    assert_eq!(res.status, 418);
    assert_eq!(res.body, "teapot");
}

#[test]
fn an_error_becomes_a_response_with_its_status() {
    let res = handle_gram_err(GramStdHttpErr::new(404, "Not Found".to_string()));
    assert_eq!(res.status, 404);
    assert_eq!(res.body, "Not Found");

    let res = handle_gram_err(GramStdHttpErr::new(100, "a".to_string()));
    assert_eq!(res.status, 100);
    let res = handle_gram_err(GramStdHttpErr::new(999, "b".to_string()));
    assert_eq!(res.status, 999);
}

#[test]
fn a_status_that_is_no_status_code_becomes_400() {
    let res = handle_gram_err(GramStdHttpErr::new(99, "low".to_string()));
    assert_eq!(res.status, 400);
    assert_eq!(res.body, "low");
    let res = handle_gram_err(GramStdHttpErr::new(1000, "high".to_string()));
    assert_eq!(res.status, 400);
    let res = handle_gram_err(GramStdHttpErr::new(0, "zero".to_string()));
    assert_eq!(res.status, 400);
    let res = handle_gram_err(GramStdHttpErr::new(65535, "max".to_string()));
    assert_eq!(res.status, 400);
}

#[test]
fn results_are_coerced_by_their_variant() {
    let ok: Result<String, GramStdHttpErr> = Ok("fine".to_string());
    let res: Response = ok.into_response();
    assert_eq!(res.status, 200);
    assert_eq!(res.body, "fine");

    let err: Result<String, GramStdHttpErr> = Err(GramStdHttpErr::new(403, "no".to_string()));
    let res: Response = err.into_response();
    assert_eq!(res.status, 403);
    assert_eq!(res.body, "no");

    let ok: Result<&'static str, Response> = Ok("fine");
    let res: Response = ok.into_response();
    assert_eq!(res.status, 200);
    assert_eq!(res.body, "fine");

    let err: Result<String, Response> = Err(Response { status: 503, body: "down".to_string() });
    let res: Response = err.into_response();
    assert_eq!(res.status, 503);
    assert_eq!(res.body, "down");

    let nested: Result<Result<String, String>, String> = Ok(Err("inner".to_string()));
    let res: Response = nested.into_response();
    assert_eq!(res.status, 200);
    assert_eq!(res.body, "inner");
}

struct Teapot;

impl IntoResponse<Response> for Teapot {
    fn into_response(self) -> Response {
        Response { status: 418, body: "short and stout".to_string() }
    }
}

#[test]
fn a_custom_error_chooses_its_own_response() {
    let err: Result<String, Teapot> = Err(Teapot);
    let res: Response = err.into_response();
    assert_eq!(res.status, 418);
    assert_eq!(res.body, "short and stout");
}

fn echo(req: String) -> String {
    req
}

fn failing(_req: String) -> Result<String, GramStdHttpErr> {
    Err(GramStdHttpErr::new(401, "who".to_string()))
}

#[test]
fn functions_are_services() {
    let res = echo.call("ping".to_string());
    assert_eq!(res.status, 200);
    assert_eq!(res.body, "ping");

    let res = failing.call("ping".to_string());
    assert_eq!(res.status, 401);
    assert_eq!(res.body, "who");

    let route: GramRoute<_, String, Response> = r(echo);
    let res = route.invoke("pong".to_string());
    assert_eq!(res.body, "pong");

    let route: GramRoute<_, String, Response> = GramRoute::new(|req: String| format!("<{}>", req));
    assert_eq!(route.invoke("x".to_string()).body, "<x>");
}

struct Stamp<S> {
    name: &'static str,
    inner: S,
}

impl<S> Service<String> for Stamp<S>
where
    S: Service<String, Output = Response>,
{
    type Output = Response;

    fn call(&self, req: String) -> Response {
        let mut res = self.inner.call(req);
        res.body.push_str(self.name);
        res
    }
}

struct Stamper(&'static str);

impl<S> ServiceTransform<S> for Stamper
where
    S: Service<String, Output = Response>,
{
    type Service = Stamp<S>;

    fn transform(&self, inner: S) -> Stamp<S> {
        Stamp { name: self.0, inner }
    }
}

#[test]
fn middleware_runs_in_the_order_in_which_it_was_added() {
    let route: GramRoute<_, String, Response> = r(echo)
        .add::<_, _, String, Response>(Stamper(" m1"))
        .add::<_, _, String, Response>(Stamper(" m2"))
        .add::<_, _, String, Response>(Stamper(" m3"))
        .add::<_, _, String, Response>(Stamper(" m4"));
    let res = route.invoke("h".to_string());
    assert_eq!(res.body, "h m1 m2 m3 m4");
}

fn outer_stamp<S>(inner: S) -> Stamp<S> {
    Stamp { name: " fn", inner }
}

#[test]
fn a_function_is_a_transform() {
    let route: GramRoute<_, String, Response> =
        r(echo).add::<_, _, String, Response>(Stamper(" a")).add(outer_stamp);
    assert_eq!(route.invoke("h".to_string()).body, "h a fn");
    let service = route.into_service();
    assert_eq!(service.call("again".to_string()).body, "again a fn");
}

#[test]
fn the_status_that_is_sent() {
    assert_eq!(status_to_send(200), 200);
    assert_eq!(status_to_send(100), 100);
    assert_eq!(status_to_send(999), 999);
    assert_eq!(status_to_send(99), 400);
    assert_eq!(status_to_send(1000), 400);
    assert_eq!(status_to_send(0), 400);
}
