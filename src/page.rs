use vstd::prelude::*;

verus! {

/// The bridge page. It runs in the browser after the provider's redirect,
/// reads the URL fragment and the `state` query parameter, and posts the
/// fragment to `/token?state=<state>`. The server fills nothing into it.
pub const BRIDGE_PAGE: &'static str = r#"<!DOCTYPE html>
<html>
<head>
    <title>Raiden AI Authenticator</title>
    <style>
        body { font-family: -apple-system, BlinkMacSystemFont, "Segoe UI", Roboto, Helvetica, Arial, sans-serif; display: flex; align-items: center; justify-content: center; height: 100vh; background: #0a0514; color: white; margin: 0; }
        .card { background: rgba(255,255,255,0.05); padding: 2rem; border-radius: 1.5rem; text-align: center; border: 1px solid rgba(255,255,255,0.1); box-shadow: 0 10px 30px rgba(0,0,0,0.5); max-width: 400px; width: 90%; }
        h2 { margin-bottom: 0.5rem; font-weight: 800; }
        p { color: rgba(255,255,255,0.5); font-size: 0.9rem; }
        .spinner { border: 3px solid rgba(255,255,255,0.1); border-top: 3px solid #f59e0b; border-radius: 50%; width: 30px; height: 30px; animation: spin 1s linear infinite; margin: 20px auto; }
        @keyframes spin { 0% { transform: rotate(0deg); } 100% { transform: rotate(360deg); } }
    </style>
</head>
<body>
    <div class="card">
        <h2 id="status">Đang xử lý kết nối...</h2>
        <div id="spinner" class="spinner"></div>
        <p id="desc">Vui lòng đợi giây lát để ứng dụng nhận token.</p>
    </div>
    <script>
        const hash = window.location.hash;
        const urlParams = new URLSearchParams(window.location.search);
        const state = urlParams.get('state');

        if (hash && hash.includes('access_token')) {
            fetch(`/token?state=${state}`, {
                method: 'POST',
                body: hash
            }).catch(err => {
                document.getElementById('status').innerText = 'Lỗi kết nối';
                document.getElementById('desc').innerText = 'Không thể gửi token về ứng dụng: ' + err;
            });
        } else {
            document.getElementById('status').innerText = 'Không tìm thấy Token';
            document.getElementById('desc').innerText = 'Vui lòng thực hiện lại quy trình đăng nhập.';
            document.getElementById('spinner').style.display = 'none';
        }
    </script>
</body>
</html>
"#;

/// The page shown once the credential has been received and handed on.
pub const SUCCESS_PAGE: &'static str = r#"<html>
<body style="font-family: sans-serif; background: #0a0514; color: white; display: flex; align-items: center; justify-content: center; height: 100vh; margin: 0;">
    <div style="text-align: center; background: rgba(255,255,255,0.05); padding: 40px; border-radius: 20px; border: 1px solid rgba(255,255,255,0.1);">
        <h1 style="color: #10b981;">Xác thực thành công!</h1>
        <p>Đã nhận được khóa truy cập. Bạn có thể đóng cửa sổ này và quay lại ứng dụng.</p>
    </div>
</body>
</html>
"#;

/// The plain-text body of the answer to a token submission with a wrong state.
pub const MISMATCH_TEXT: &'static str = "Unauthorized: State mismatch";

/// Renders the bridge page: always the same text.
pub fn bridge_page() -> (r: String)
    ensures
        r@ == BRIDGE_PAGE@,
{
    BRIDGE_PAGE.to_owned()
}

/// Renders the success page: always the same text.
pub fn success_page() -> (r: String)
    ensures
        r@ == SUCCESS_PAGE@,
{
    SUCCESS_PAGE.to_owned()
}

/// Renders the body of the state-mismatch answer.
pub fn mismatch_text() -> (r: String)
    ensures
        r@ == MISMATCH_TEXT@,
{
    MISMATCH_TEXT.to_owned()
}

} // verus!
